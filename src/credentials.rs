//! API keys in the platform's secret store, under one service name.

use vstd::prelude::*;

verus! {

#[verifier::external_type_specification]
#[verifier::external_body]
pub struct ExEntry(keyring::Entry);

#[verifier::external_type_specification]
#[verifier::external_body]
pub struct ExKeyringError(keyring::Error);

/// Relies on `keyring::Entry::new`: an entry of the default credential
/// store for the service and user, or an error where either is invalid.
pub assume_specification[ keyring::Entry::new ](service: &str, user: &str) -> Result<
    keyring::Entry,
    keyring::Error,
>;

/// Relies on `keyring::Entry::set_password`: saves the password in the
/// platform store.
pub assume_specification[ keyring::Entry::set_password ](entry: &keyring::Entry, password: &str) -> Result<
    (),
    keyring::Error,
>;

/// Relies on `keyring::Entry::get_password`: the saved password, or an error
/// where there is none or the store fails.
pub assume_specification[ keyring::Entry::get_password ](entry: &keyring::Entry) -> Result<
    String,
    keyring::Error,
>;

/// Relies on `keyring::Entry::delete_credential`: removes the saved
/// credential, or an error where there is none or the store fails.
pub assume_specification[ keyring::Entry::delete_credential ](entry: &keyring::Entry) -> Result<
    (),
    keyring::Error,
>;

/// The service under which every key is saved.
pub const SERVICE_NAME: &'static str = "com.aichatbox.app";

#[derive(Debug)]
pub enum CredentialError {
    /// The secret store could not be used.
    KeyringError(keyring::Error),
    /// No secret is saved under the key name.
    NoCredentialFound,
}

impl CredentialError {
    /// A readable description of the failure.
    pub fn message(&self) -> (r: String)
        ensures
            self is NoCredentialFound ==> r@ == "No credential found"@,
            self is KeyringError ==> exists|detail: Seq<char>| r@ == "Keyring error: "@ + detail,
    {
        match self {
            CredentialError::KeyringError(e) => String::from_str("Keyring error: ").concat(
                e.to_string().as_str(),
            ),
            CredentialError::NoCredentialFound => String::from_str("No credential found"),
        }
    }
}

/// The entry that holds the key saved under `key_name`.
fn create_entry(key_name: &str) -> (r: Result<keyring::Entry, CredentialError>)
    ensures
        r matches Err(e) ==> e is KeyringError,
{
    match keyring::Entry::new(SERVICE_NAME, key_name) {
        Ok(entry) => Ok(entry),
        Err(e) => Err(CredentialError::KeyringError(e)),
    }
}

/// What a lookup yields from the store's answer: the secret where there is
/// one, and `NoCredentialFound` for every failure.
pub fn lookup_outcome(answer: Result<String, keyring::Error>) -> (r: Result<String, CredentialError>)
    ensures
        answer matches Ok(p) ==> r == Ok::<String, CredentialError>(p),
        answer is Err ==> r matches Err(CredentialError::NoCredentialFound),
{
    match answer {
        Ok(password) => Ok(password),
        Err(_) => Err(CredentialError::NoCredentialFound),
    }
}

/// Saves `api_key` under `key_name`. A failure is always the store's.
pub fn store_api_key(key_name: &str, api_key: &str) -> (r: Result<(), CredentialError>)
    ensures
        r matches Err(e) ==> e is KeyringError,
{
    let entry = create_entry(key_name)?;
    match entry.set_password(api_key) {
        Ok(()) => Ok(()),
        Err(e) => Err(CredentialError::KeyringError(e)),
    }
}

/// The key saved under `key_name`; `NoCredentialFound` where the store has
/// none or cannot be read.
pub fn get_api_key(key_name: &str) -> (r: Result<String, CredentialError>)
    ensures
        r matches Err(e) ==> (e is NoCredentialFound || e is KeyringError),
{
    let entry = create_entry(key_name)?;
    lookup_outcome(entry.get_password())
}

/// Removes the key saved under `key_name`. It always succeeds: where none
/// is saved, or the store cannot be reached, there is nothing to remove.
pub fn delete_api_key(key_name: &str) -> (r: Result<(), CredentialError>)
    ensures
        r is Ok,
{
    match create_entry(key_name) {
        Ok(entry) => {
            let _ = entry.delete_credential();
        },
        Err(_) => {},
    }
    Ok(())
}

} // verus!

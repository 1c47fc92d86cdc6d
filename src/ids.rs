//! Fresh identifiers.

use vstd::prelude::*;

verus! {

/// A lower-case hexadecimal digit.
pub open spec fn is_lower_hex(c: char) -> bool {
    ('0' <= c && c <= '9') || ('a' <= c && c <= 'f')
}

/// The positions of the hyphens in a hyphenated UUID.
pub open spec fn is_uuid_hyphen_position(i: int) -> bool {
    i == 8 || i == 13 || i == 18 || i == 23
}

/// Relies on `uuid::Uuid::new_v4` and its `Display`, which writes the
/// hyphenated lower-case form: a random version-4 UUID as 36 characters,
/// 32 lower-case hexadecimal digits in groups of 8, 4, 4, 4 and 12 joined
/// by `-`.
#[verifier::external_body]
pub(crate) fn new_uuid() -> (r: String)
    ensures
        r@.len() == 36,
        forall|i: int|
            0 <= i < 36 ==> if is_uuid_hyphen_position(i) {
                r@[i] == '-'
            } else {
                is_lower_hex(#[trigger] r@[i])
            },
{
    uuid::Uuid::new_v4().to_string()
}

} // verus!

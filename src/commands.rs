//! The decisions that tie a stored provider to a gateway exchange: which
//! protocol to speak, what request to send, and which errors to report
//! before anything is sent.

use vstd::prelude::*;
use crate::ai::{AIError, AIResponse, ChatMessage, HttpRequest};
use crate::db::{AIModel, AIProvider, Statement, add_provider_with_id, update_provider};
use crate::gemini;
use crate::ids::{is_lower_hex, new_uuid};
use crate::openai;
use crate::resolver::{Protocol, ProviderType, provider_type, resolve};
use crate::text::{equals, lowercase_of};

verus! {

/// The family of a stored provider.
pub open spec fn stored_type(provider_id: Seq<char>, p: AIProvider) -> ProviderType {
    resolve(provider_id, lowercase_of(p.api_url@), lowercase_of(p.name@))
}

/// The request of a chat exchange and the protocol its reply comes in.
#[derive(Debug, Clone)]
pub struct ChatPlan {
    pub protocol: Protocol,
    pub request: HttpRequest,
}

/// The chat request for `protocol`.
pub open spec fn is_chat_request(
    protocol: Protocol,
    r: HttpRequest,
    api_url: Seq<char>,
    api_key: Seq<char>,
    model: Seq<char>,
    messages: Seq<ChatMessage>,
) -> bool {
    match protocol {
        Protocol::OpenAICompatible => {
            &&& r.method == crate::ai::HttpMethod::Post
            &&& r.url@ == openai::chat_url(api_url)
            &&& r.bearer_token matches Some(t) && t@ == api_key
            &&& r.json_body matches Some(b) && b@ == openai::chat_body(
                model,
                crate::ai::messages_view(messages),
                false,
            )
        },
        Protocol::Gemini => {
            &&& r.method == crate::ai::HttpMethod::Post
            &&& r.url@ == gemini::chat_url(api_url, model, api_key)
            &&& r.bearer_token is None
            &&& r.json_body matches Some(b) && b@ == gemini::request_json(
                gemini::gemini_contents(crate::ai::messages_view(messages)),
            )
        },
    }
}

/// The exchange that sends `messages` to `model` of a provider.
pub fn chat_plan(provider_type: ProviderType, api_url: &str, api_key: &str, model: &str, messages: Vec<ChatMessage>) -> (r: ChatPlan)
    ensures
        r.protocol == provider_type.spec_protocol(),
        is_chat_request(r.protocol, r.request, api_url@, api_key@, model@, messages@),
{
    let protocol = provider_type.protocol();
    let request = match protocol {
        Protocol::OpenAICompatible => openai::chat_request(api_url, api_key, model, messages),
        Protocol::Gemini => gemini::chat_request(api_url, api_key, model, messages),
    };
    ChatPlan { protocol, request }
}

/// The position of the first model with id `model_id`.
pub fn find_model(models: &Vec<AIModel>, model_id: &str) -> (r: Option<usize>)
    ensures
        r matches Some(i) ==> i < models@.len() && models@[i as int].id@ == model_id@ && forall|j: int|
            0 <= j < i ==> (#[trigger] models@[j]).id@ != model_id@,
        r is None ==> forall|j: int| 0 <= j < models@.len() ==> (#[trigger] models@[j]).id@ != model_id@,
{
    let mut i: usize = 0;
    while i < models.len()
        invariant
            i <= models@.len(),
            forall|j: int| 0 <= j < i ==> (#[trigger] models@[j]).id@ != model_id@,
        decreases models@.len() - i,
    {
        if equals(models[i].id.as_str(), model_id) {
            return Some(i);
        }
        i = i + 1;
    }
    None
}

/// The chat exchange for a conversation with a stored model: fails with
/// "Provider not found" where the provider is absent, with "API key not
/// set ..." where it has no cached key, and with "Model with ID ... not
/// found" where none of its models has the id; otherwise it speaks the
/// provider's protocol to the name of the first model with the id, with the
/// cached key.
pub fn send_chat_plan(
    provider_id: &str,
    provider: Option<AIProvider>,
    models: &Vec<AIModel>,
    model_id: &str,
    messages: Vec<ChatMessage>,
) -> (r: Result<ChatPlan, String>)
    ensures
        provider is None ==> (r matches Err(e) && e@ == "Provider not found"@),
        provider matches Some(p) ==> {
            &&& p.api_key is None ==> (r matches Err(e) && e@
                == "API key not set for this provider. Please set an API key in the Providers page."@)
            &&& p.api_key matches Some(k) ==> {
                &&& (forall|j: int| 0 <= j < models@.len() ==> (#[trigger] models@[j]).id@ != model_id@) ==> (r matches Err(e)
                    && e@ == "Model with ID "@ + model_id@ + " not found"@)
                &&& (exists|j: int| 0 <= j < models@.len() && (#[trigger] models@[j]).id@ == model_id@) ==> (r matches Ok(plan)
                    && plan.protocol == stored_type(provider_id@, p).spec_protocol() && exists|j: int|
                    0 <= j < models@.len() && (#[trigger] models@[j]).id@ == model_id@ && (forall|i: int|
                    0 <= i < j ==> (#[trigger] models@[i]).id@ != model_id@) && is_chat_request(
                    plan.protocol,
                    plan.request,
                    p.api_url@,
                    k@,
                    models@[j].name@,
                    messages@,
                ))
            }
        },
{
    let p = match provider {
        Some(p) => p,
        None => return Err(String::from_str("Provider not found")),
    };
    let api_key = match &p.api_key {
        Some(k) => k,
        None => return Err(
            String::from_str("API key not set for this provider. Please set an API key in the Providers page."),
        ),
    };
    let index = match find_model(models, model_id) {
        Some(i) => i,
        None => return Err(String::from_str("Model with ID ").concat(model_id).concat(" not found")),
    };
    let t = provider_type(provider_id, p.api_url.as_str(), p.name.as_str());
    Ok(chat_plan(t, p.api_url.as_str(), api_key.as_str(), models[index].name.as_str(), messages))
}

/// The message sent to check that a model answers.
pub fn verification_messages() -> (r: Vec<ChatMessage>)
    ensures
        r@.len() == 1,
        r@[0].role@ == "user"@,
        r@[0].content@ == "Hello"@,
{
    let mut v: Vec<ChatMessage> = Vec::new();
    v.push(ChatMessage { role: String::from_str("user"), content: String::from_str("Hello") });
    v
}

/// The exchange that checks whether `model_name` answers at a stored
/// provider: fails with "Provider not found" where the provider is absent
/// and with "API key not found for provider" where it has no cached key;
/// otherwise it sends a single user message "Hello" to the model.
pub fn verify_model_plan(provider_id: &str, provider: Option<AIProvider>, model_name: &str) -> (r: Result<ChatPlan, String>)
    ensures
        provider is None ==> (r matches Err(e) && e@ == "Provider not found"@),
        provider matches Some(p) ==> {
            &&& p.api_key is None ==> (r matches Err(e) && e@ == "API key not found for provider"@)
            &&& p.api_key matches Some(k) ==> (r matches Ok(plan) && plan.protocol == stored_type(
                provider_id@,
                p,
            ).spec_protocol() && exists|ms: Seq<ChatMessage>|
                ms.len() == 1 && ms[0].role@ == "user"@ && ms[0].content@ == "Hello"@ && is_chat_request(
                    plan.protocol,
                    plan.request,
                    p.api_url@,
                    k@,
                    model_name@,
                    ms,
                ))
        },
{
    let p = match provider {
        Some(p) => p,
        None => return Err(String::from_str("Provider not found")),
    };
    let api_key = match &p.api_key {
        Some(k) => k,
        None => return Err(String::from_str("API key not found for provider")),
    };
    let t = provider_type(provider_id, p.api_url.as_str(), p.name.as_str());
    let messages = verification_messages();
    Ok(chat_plan(t, p.api_url.as_str(), api_key.as_str(), model_name, messages))
}

/// Whether a verification exchange shows the model working: any failure
/// counts as "not verified" and is not passed on.
pub fn verification_result(outcome: &Result<AIResponse, AIError>) -> (r: bool)
    ensures
        r == outcome is Ok,
{
    match outcome {
        Ok(_) => true,
        Err(_) => false,
    }
}

/// How the models of a provider are listed.
#[derive(Debug, Clone)]
pub enum ModelListing {
    /// The fixed list, with no exchange.
    Known(Vec<String>),
    /// An OpenAI-compatible listing exchange.
    Fetch { provider_type: ProviderType, request: HttpRequest },
}

/// How to list the models of a stored provider: fails with "Provider not
/// found" where the provider is absent and with "API key not set ..." where
/// it has no cached key; Gemini has its fixed list, and every other family
/// is asked over the OpenAI-compatible protocol.
pub fn model_listing_plan(provider_id: &str, provider: Option<AIProvider>) -> (r: Result<ModelListing, String>)
    ensures
        provider is None ==> (r matches Err(e) && e@ == "Provider not found"@),
        provider matches Some(p) ==> {
            &&& p.api_key is None ==> (r matches Err(e) && e@
                == "API key not set for this provider. Please set an API key in the Providers page."@)
            &&& p.api_key matches Some(k) ==> {
                &&& stored_type(provider_id@, p) == ProviderType::Gemini ==> (r matches Ok(ModelListing::Known(v))
                    && v@.len() == 3 && v@[0]@ == "gemini-1.5-pro"@ && v@[1]@ == "gemini-1.5-flash"@ && v@[2]@
                    == "gemini-1.0-pro"@)
                &&& stored_type(provider_id@, p) != ProviderType::Gemini ==> (r matches Ok(
                    ModelListing::Fetch { provider_type: t, request },
                ) && t == stored_type(provider_id@, p) && request.method == crate::ai::HttpMethod::Get
                    && request.url@ == openai::models_url(p.api_url@) && request.json_body is None && (
                request.bearer_token matches Some(b) && b@ == k@))
            }
        },
{
    let p = match provider {
        Some(p) => p,
        None => return Err(String::from_str("Provider not found")),
    };
    let api_key = match &p.api_key {
        Some(k) => k,
        None => return Err(
            String::from_str("API key not set for this provider. Please set an API key in the Providers page."),
        ),
    };
    let t = provider_type(provider_id, p.api_url.as_str(), p.name.as_str());
    match t {
        ProviderType::Gemini => Ok(ModelListing::Known(gemini::known_models())),
        _ => Ok(
            ModelListing::Fetch {
                provider_type: t,
                request: openai::models_request(p.api_url.as_str(), api_key.as_str()),
            },
        ),
    }
}

/// The message reported for a failed listing exchange: a `custom` provider
/// gets a hint that it may not list models or speak the protocol.
pub fn listing_error(provider_type: ProviderType, e: &AIError) -> (r: String)
    ensures
        provider_type == ProviderType::Custom ==> r@ == "Custom provider API error: "@ + e.message_spec()
            + ". This provider might not support model listing or might not be OpenAI-compatible."@,
        provider_type != ProviderType::Custom ==> r@ == e.message_spec(),
{
    let m = e.message();
    match provider_type {
        ProviderType::Custom => String::from_str("Custom provider API error: ").concat(m.as_str()).concat(
            ". This provider might not support model listing or might not be OpenAI-compatible.",
        ),
        _ => m,
    }
}

/// The first `-`-separated group of `s`: all of it where it has no `-`.
pub open spec fn first_group(s: Seq<char>) -> Seq<char> {
    if exists|i: int| 0 <= i < s.len() && s[i] == '-' {
        s.take(choose|i: int| 0 <= i < s.len() && s[i] == '-' && forall|j: int| 0 <= j < i ==> s[j] != '-')
    } else {
        s
    }
}

/// The id of a new provider: `{prefix}-{first group of the uuid}` where a
/// prefix is given, the uuid itself otherwise.
pub fn provider_id_from(prefix: Option<&str>, uuid: &str) -> (r: String)
    ensures
        prefix is None ==> r@ == uuid@,
        prefix matches Some(p) ==> r@ == p@ + "-"@ + first_group(uuid@),
{
    match prefix {
        None => String::from_str(uuid),
        Some(p) => {
            let n = uuid.unicode_len();
            let mut i: usize = 0;
            while i < n && uuid.get_char(i) != '-'
                invariant
                    n == uuid@.len(),
                    i <= n,
                    forall|j: int| 0 <= j < i ==> uuid@[j] != '-',
                decreases n - i,
            {
                i = i + 1;
            }
            proof {
                if i < n {
                    assert(uuid@[i as int] == '-');
                    let c = choose|c: int| 0 <= c < uuid@.len() && uuid@[c] == '-' && forall|j: int| 0 <= j < c ==> uuid@[j] != '-';
                    assert(c == i) by {
                        if c < i {
                            assert(uuid@[c] != '-');
                        } else if c > i {
                            assert(uuid@[i as int] != '-');
                        }
                    }
                } else {
                    assert(uuid@.take(n as int) =~= uuid@);
                }
            }
            let group = uuid.substring_char(0, i);
            assert(group@ =~= uuid@.take(i as int));
            String::from_str(p).concat("-").concat(group)
        },
    }
}

/// The insertion of a provider created from the form: its id from the
/// prefix and a fresh uuid, its display name as key name, and the key
/// cached.
pub fn add_provider_plan(name: &str, api_url: &str, api_key: &str, id_prefix: Option<&str>) -> (r: (String, Statement))
    ensures
        r.1 matches Statement::InsertProvider(p) && p.id@ == r.0@ && crate::db::is_new_provider(
            p,
            name@,
            api_url@,
            name@,
            api_key@,
        ),
        id_prefix is None ==> r.0@.len() == 36,
        id_prefix matches Some(x) ==> r.0@.len() == x@.len() + 9 && r.0@.take(x@.len() + 1int) == x@ + "-"@,
{
    let uuid = new_uuid();
    let id = provider_id_from(id_prefix, uuid.as_str());
    proof {
        let u = uuid@;
        assert(u[8] == '-');
        let c = choose|c: int| 0 <= c < u.len() && u[c] == '-' && forall|j: int| 0 <= j < c ==> u[j] != '-';
        assert(c == 8) by {
            if c < 8 {
                assert(is_lower_hex(u[c]));
            } else if c > 8 {
                assert(u[8] != '-');
            }
        }
        assert(first_group(u).len() == 8);
        if let Some(x) = id_prefix {
            reveal_strlit("-");
            assert((x@ + "-"@ + first_group(u)).take(x@.len() + 1int) =~= x@ + "-"@);
        }
    }
    let st = add_provider_with_id(id.as_str(), name, api_url, name, api_key);
    (id, st)
}

/// The update of a stored provider from the form, keeping its key name:
/// "Provider not found" where it is absent.
pub fn update_provider_plan(current: Option<AIProvider>, id: &str, name: &str, api_url: &str, api_key: Option<&str>) -> (r: Result<Statement, String>)
    ensures
        current is None ==> (r matches Err(e) && e@ == "Provider not found"@),
        current matches Some(c) ==> (r matches Ok(
            Statement::UpdateProvider { id: i, name: n, api_url: u, api_key_name: kn, api_key: k, updated_at },
        ) && i@ == id@ && n@ == name@ && u@ == api_url@ && kn@ == c.api_key_name@ && (k is Some <==> api_key is Some)
            && (k matches Some(kk) ==> kk@ == api_key->0@)),
{
    match current {
        None => Err(String::from_str("Provider not found")),
        Some(c) => Ok(update_provider(id, name, api_url, c.api_key_name.as_str(), api_key)),
    }
}

} // verus!

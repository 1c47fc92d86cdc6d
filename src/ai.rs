//! Types shared by the protocol adapters, and the handling of a provider's
//! reply that does not depend on the protocol.

use vstd::prelude::*;

verus! {

/// One message of a conversation, in the generic shape.
#[derive(Debug, Clone)]
pub struct ChatMessage {
    pub role: String,
    pub content: String,
}

/// What a [`ChatMessage`] holds.
pub ghost struct MessageView {
    pub role: Seq<char>,
    pub content: Seq<char>,
}

impl View for ChatMessage {
    type V = MessageView;

    open spec fn view(&self) -> MessageView {
        MessageView { role: self.role@, content: self.content@ }
    }
}

/// The messages of a conversation, as views.
pub open spec fn messages_view(ms: Seq<ChatMessage>) -> Seq<MessageView> {
    ms.map_values(|m: ChatMessage| m@)
}

/// A provider's answer, in the generic shape.
#[derive(Debug, Clone)]
pub struct AIResponse {
    pub content: String,
    pub reasoning: Option<String>,
}

/// The failures of a gateway exchange, by category.
#[derive(Debug, Clone)]
pub enum AIError {
    /// The provider could not be reached (connection, TLS, timeout).
    TransportError(String),
    /// A successful reply did not have the expected shape.
    DecodeError(String),
    /// The provider refused the request (the message is its reply body), or
    /// answered without content.
    APIError(String),
}

impl AIError {
    pub open spec fn message_spec(&self) -> Seq<char> {
        match self {
            AIError::TransportError(e) => "HTTP request error: "@ + e@,
            AIError::DecodeError(e) => "JSON serialization error: "@ + e@,
            AIError::APIError(e) => "API error: "@ + e@,
        }
    }

    /// A readable description of the failure.
    pub fn message(&self) -> (r: String)
        ensures
            r@ == self.message_spec(),
    {
        match self {
            AIError::TransportError(e) => String::from_str("HTTP request error: ").concat(e.as_str()),
            AIError::DecodeError(e) => String::from_str("JSON serialization error: ").concat(e.as_str()),
            AIError::APIError(e) => String::from_str("API error: ").concat(e.as_str()),
        }
    }
}

/// The HTTP verbs that the gateway uses.
#[derive(Debug, Clone, Copy, PartialEq, Eq, Structural)]
pub enum HttpMethod {
    Get,
    Post,
}

/// One HTTP request, described as plain values: a transport sends it as
/// it stands.
#[derive(Debug, Clone)]
pub struct HttpRequest {
    pub method: HttpMethod,
    pub url: String,
    /// Sent as `Authorization: Bearer <token>` when present.
    pub bearer_token: Option<String>,
    /// Sent with content type `application/json` when present.
    pub json_body: Option<String>,
}

/// A 2xx status.
pub open spec fn is_success(status: u16) -> bool {
    200 <= status < 300
}

pub fn status_is_success(status: u16) -> (r: bool)
    ensures
        r == is_success(status),
{
    200 <= status && status < 300
}

/// The reply to one exchange, before its content is looked at: a non-2xx
/// status is an `APIError` carrying the body exactly as it came, whatever
/// the body holds; a 2xx status yields the decoded reply, or a `DecodeError`
/// where the body did not decode. `decoded` is the body read as the expected
/// reply shape.
pub fn accept_reply<T>(status: u16, body: String, decoded: Result<T, String>) -> (r: Result<T, AIError>)
    ensures
        !is_success(status) ==> r == Err::<T, AIError>(AIError::APIError(body)),
        is_success(status) ==> r == match decoded {
            Ok(v) => Ok::<T, AIError>(v),
            Err(e) => Err(AIError::DecodeError(e)),
        },
{
    if !status_is_success(status) {
        return Err(AIError::APIError(body));
    }
    match decoded {
        Ok(v) => Ok(v),
        Err(e) => Err(AIError::DecodeError(e)),
    }
}

} // verus!

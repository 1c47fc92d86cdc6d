//! The OpenAI-compatible protocol: chat completions and model listing.

use vstd::prelude::*;
use crate::ai::{accept_reply, messages_view, AIError, AIResponse, ChatMessage, HttpMethod, HttpRequest, MessageView, is_success};
use crate::json::{join_commas, json_quote, json_string, lemma_join_push};

verus! {

/// The body of a chat completion request.
#[derive(Debug, Clone)]
pub struct ChatCompletionRequest {
    pub model: String,
    pub messages: Vec<ChatMessage>,
    pub stream: bool,
}

/// The reply to a chat completion request.
#[derive(Debug, Clone)]
pub struct ChatCompletionResponse {
    pub id: String,
    pub choices: Vec<Choice>,
}

#[derive(Debug, Clone)]
pub struct Choice {
    pub message: ChatMessage,
}

/// One chunk of a streamed reply.
#[derive(Debug, Clone)]
pub struct StreamResponse {
    pub choices: Vec<StreamChoice>,
}

#[derive(Debug, Clone)]
pub struct StreamChoice {
    pub delta: StreamDelta,
}

#[derive(Debug, Clone)]
pub struct StreamDelta {
    pub content: Option<String>,
}

/// The reply to a model listing request.
#[derive(Debug, Clone)]
pub struct ModelListResponse {
    pub data: Vec<Model>,
}

#[derive(Debug, Clone)]
pub struct Model {
    pub id: String,
}

/// `{"role":...,"content":...}`
pub open spec fn message_json(m: MessageView) -> Seq<char> {
    "{\"role\":"@ + json_quote(m.role) + ",\"content\":"@ + json_quote(m.content) + "}"@
}

/// `{"model":...,"messages":[...],"stream":...}`
pub open spec fn chat_body(model: Seq<char>, ms: Seq<MessageView>, stream: bool) -> Seq<char> {
    "{\"model\":"@ + json_quote(model) + ",\"messages\":["@ + join_commas(
        ms.map_values(|m: MessageView| message_json(m)),
    ) + "],\"stream\":"@ + (if stream {
        "true"@
    } else {
        "false"@
    }) + "}"@
}

pub open spec fn chat_url(api_url: Seq<char>) -> Seq<char> {
    api_url + "/v1/chat/completions"@
}

pub open spec fn models_url(api_url: Seq<char>) -> Seq<char> {
    api_url + "/v1/models"@
}

fn message_to_json(m: &ChatMessage) -> (r: String)
    ensures
        r@ == message_json(m@),
{
    let mut out = String::from_str("{\"role\":");
    out.append(json_string(m.role.as_str()).as_str());
    out.append(",\"content\":");
    out.append(json_string(m.content.as_str()).as_str());
    out.append("}");
    out
}

impl ChatCompletionRequest {
    /// A non-streaming request for `model` over `messages`.
    pub fn new(model: &str, messages: Vec<ChatMessage>) -> (r: Self)
        ensures
            r.model@ == model@,
            r.messages == messages,
            !r.stream,
    {
        ChatCompletionRequest { model: String::from_str(model), messages, stream: false }
    }

    /// The request as compact JSON, fields in declaration order.
    pub fn to_json(&self) -> (r: String)
        ensures
            r@ == chat_body(self.model@, messages_view(self.messages@), self.stream),
    {
        let ghost items = messages_view(self.messages@).map_values(|m: MessageView| message_json(m));
        let mut list = String::new();
        let mut i: usize = 0;
        while i < self.messages.len()
            invariant
                i <= self.messages@.len(),
                items.len() == self.messages@.len(),
                forall|k: int| 0 <= k < items.len() ==> items[k] == message_json(#[trigger] self.messages@[k]@),
                list@ == join_commas(items.take(i as int)),
            decreases self.messages@.len() - i,
        {
            let one = message_to_json(&self.messages[i]);
            proof {
                lemma_join_push(items, i as int, list@);
            }
            if i > 0 {
                list.append(",");
            }
            list.append(one.as_str());
            i = i + 1;
        }
        assert(items.take(i as int) =~= items);
        let mut out = String::from_str("{\"model\":");
        out.append(json_string(self.model.as_str()).as_str());
        out.append(",\"messages\":[");
        out.append(list.as_str());
        out.append("],\"stream\":");
        if self.stream {
            out.append("true");
        } else {
            out.append("false");
        }
        out.append("}");
        out
    }
}

/// The chat request to an OpenAI-compatible provider: a POST of a
/// non-streaming completion body to `{api_url}/v1/chat/completions`, with
/// the key as bearer token.
pub fn chat_request(api_url: &str, api_key: &str, model: &str, messages: Vec<ChatMessage>) -> (r: HttpRequest)
    ensures
        r.method == HttpMethod::Post,
        r.url@ == chat_url(api_url@),
        r.bearer_token matches Some(t) && t@ == api_key@,
        r.json_body matches Some(b) && b@ == chat_body(model@, messages_view(messages@), false),
{
    let body = ChatCompletionRequest::new(model, messages).to_json();
    HttpRequest {
        method: HttpMethod::Post,
        url: String::from_str(api_url).concat("/v1/chat/completions"),
        bearer_token: Some(String::from_str(api_key)),
        json_body: Some(body),
    }
}

/// The model listing request: a GET of `{api_url}/v1/models` with the key
/// as bearer token.
pub fn models_request(api_url: &str, api_key: &str) -> (r: HttpRequest)
    ensures
        r.method == HttpMethod::Get,
        r.url@ == models_url(api_url@),
        r.bearer_token matches Some(t) && t@ == api_key@,
        r.json_body is None,
{
    HttpRequest {
        method: HttpMethod::Get,
        url: String::from_str(api_url).concat("/v1/models"),
        bearer_token: Some(String::from_str(api_key)),
        json_body: None,
    }
}

/// What a decoded completion yields: the content of its first choice, or an
/// `APIError` where it has none.
pub open spec fn is_choice_outcome(resp: ChatCompletionResponse, r: Result<AIResponse, AIError>) -> bool {
    if resp.choices.len() > 0 {
        r == Ok::<AIResponse, AIError>(
            AIResponse { content: resp.choices[0].message.content, reasoning: None },
        )
    } else {
        r matches Err(AIError::APIError(e)) && e@ == "No response generated"@
    }
}

/// The answer held by a decoded completion.
pub fn first_choice(resp: &ChatCompletionResponse) -> (r: Result<AIResponse, AIError>)
    ensures
        is_choice_outcome(*resp, r),
{
    if resp.choices.len() > 0 {
        Ok(AIResponse { content: resp.choices[0].message.content.clone(), reasoning: None })
    } else {
        Err(AIError::APIError(String::from_str("No response generated")))
    }
}

/// The outcome of a chat exchange, from the status, the body and the body
/// decoded as a completion.
pub fn chat_outcome(status: u16, body: String, decoded: Result<ChatCompletionResponse, String>) -> (r: Result<AIResponse, AIError>)
    ensures
        !is_success(status) ==> r == Err::<AIResponse, AIError>(AIError::APIError(body)),
        is_success(status) ==> match decoded {
            Ok(resp) => is_choice_outcome(resp, r),
            Err(e) => r == Err::<AIResponse, AIError>(AIError::DecodeError(e)),
        },
{
    match accept_reply(status, body, decoded) {
        Ok(resp) => first_choice(&resp),
        Err(e) => Err(e),
    }
}

/// The ids of the listed models, in the order given.
pub fn model_ids(resp: ModelListResponse) -> (r: Vec<String>)
    ensures
        r@ == resp.data@.map_values(|m: Model| m.id),
{
    let mut ids: Vec<String> = Vec::new();
    let mut i: usize = 0;
    while i < resp.data.len()
        invariant
            i <= resp.data@.len(),
            ids@ == resp.data@.take(i as int).map_values(|m: Model| m.id),
        decreases resp.data@.len() - i,
    {
        ids.push(resp.data[i].id.clone());
        i = i + 1;
        assert(ids@ =~= resp.data@.take(i as int).map_values(|m: Model| m.id));
    }
    assert(resp.data@.take(i as int) =~= resp.data@);
    ids
}

/// The outcome of a model listing exchange.
pub fn models_outcome(status: u16, body: String, decoded: Result<ModelListResponse, String>) -> (r: Result<Vec<String>, AIError>)
    ensures
        !is_success(status) ==> r == Err::<Vec<String>, AIError>(AIError::APIError(body)),
        is_success(status) ==> match decoded {
            Ok(resp) => r matches Ok(ids) && ids@ == resp.data@.map_values(|m: Model| m.id),
            Err(e) => r == Err::<Vec<String>, AIError>(AIError::DecodeError(e)),
        },
{
    match accept_reply(status, body, decoded) {
        Ok(resp) => Ok(model_ids(resp)),
        Err(e) => Err(e),
    }
}

} // verus!

//! The Gemini protocol: content generation, and its fixed model list.

use vstd::prelude::*;
use crate::ai::{accept_reply, messages_view, AIError, AIResponse, ChatMessage, HttpMethod, HttpRequest, MessageView, is_success};
use crate::json::{join_commas, json_quote, json_string, lemma_join_push};
use crate::text::equals;

verus! {

/// The body of a content generation request.
#[derive(Debug, Clone)]
pub struct ChatRequest {
    pub contents: Vec<Content>,
}

/// One turn of the conversation, as Gemini sees it.
#[derive(Debug, Clone)]
pub struct Content {
    pub role: String,
    pub parts: Vec<Part>,
}

#[derive(Debug, Clone)]
pub struct Part {
    pub text: String,
}

/// The reply to a content generation request.
#[derive(Debug, Clone)]
pub struct ChatResponse {
    pub candidates: Vec<Candidate>,
}

#[derive(Debug, Clone)]
pub struct Candidate {
    pub content: Content,
}

/// What a [`Content`] holds: its role and the text of each part.
pub ghost struct ContentView {
    pub role: Seq<char>,
    pub parts: Seq<Seq<char>>,
}

impl View for Content {
    type V = ContentView;

    open spec fn view(&self) -> ContentView {
        ContentView { role: self.role@, parts: self.parts@.map_values(|p: Part| p.text@) }
    }
}

pub open spec fn contents_view(cs: Seq<Content>) -> Seq<ContentView> {
    cs.map_values(|c: Content| c@)
}

/// The Gemini role of a generic role: `user` stays, `assistant` becomes
/// `model`, and any other role has none.
pub open spec fn gemini_role(role: Seq<char>) -> Option<Seq<char>> {
    if role == "user"@ {
        Some("user"@)
    } else if role == "assistant"@ {
        Some("model"@)
    } else {
        None
    }
}

/// The turns sent for a conversation: one single-part turn per message that
/// has a Gemini role, in order; the other messages are left out.
pub open spec fn gemini_contents(ms: Seq<MessageView>) -> Seq<ContentView>
    decreases ms.len(),
{
    if ms.len() == 0 {
        Seq::empty()
    } else {
        let rest = gemini_contents(ms.drop_last());
        match gemini_role(ms.last().role) {
            Some(r) => rest.push(ContentView { role: r, parts: seq![ms.last().content] }),
            None => rest,
        }
    }
}

/// `{"text":...}`
pub open spec fn part_json(text: Seq<char>) -> Seq<char> {
    "{\"text\":"@ + json_quote(text) + "}"@
}

/// `{"role":...,"parts":[...]}`
pub open spec fn content_json(c: ContentView) -> Seq<char> {
    "{\"role\":"@ + json_quote(c.role) + ",\"parts\":["@ + join_commas(
        c.parts.map_values(|t: Seq<char>| part_json(t)),
    ) + "]}"@
}

/// `{"contents":[...]}`
pub open spec fn request_json(cs: Seq<ContentView>) -> Seq<char> {
    "{\"contents\":["@ + join_commas(cs.map_values(|c: ContentView| content_json(c))) + "]}"@
}

/// The endpoint for `model`; the key travels as the query parameter `key`.
pub open spec fn chat_url(api_url: Seq<char>, model: Seq<char>, api_key: Seq<char>) -> Seq<char> {
    api_url + "/v1beta/models/"@ + model + "/generateContent?key="@ + api_key
}

/// The Gemini role for a generic role.
pub fn map_role(role: &str) -> (r: Option<&'static str>)
    ensures
        r matches Some(s) ==> gemini_role(role@) == Some(s@),
        r is None ==> gemini_role(role@) is None,
{
    if equals(role, "user") {
        Some("user")
    } else if equals(role, "assistant") {
        Some("model")
    } else {
        None
    }
}

/// The turns sent for `messages`.
pub fn to_contents(messages: &Vec<ChatMessage>) -> (r: Vec<Content>)
    ensures
        contents_view(r@) == gemini_contents(messages_view(messages@)),
{
    let mut contents: Vec<Content> = Vec::new();
    let mut i: usize = 0;
    while i < messages.len()
        invariant
            i <= messages@.len(),
            contents_view(contents@) == gemini_contents(messages_view(messages@.take(i as int))),
        decreases messages@.len() - i,
    {
        let m = &messages[i];
        let ghost before = contents_view(contents@);
        assert(messages_view(messages@.take(i + 1)).drop_last() =~= messages_view(messages@.take(i as int)));
        assert(messages_view(messages@.take(i + 1)).last() == m@);
        match map_role(m.role.as_str()) {
            Some(role) => {
                let mut parts: Vec<Part> = Vec::new();
                parts.push(Part { text: m.content.clone() });
                let c = Content { role: String::from_str(role), parts };
                assert(c@.parts =~= seq![m.content@]);
                contents.push(c);
                assert(contents_view(contents@) =~= before.push(c@));
            },
            None => {},
        }
        i = i + 1;
    }
    assert(messages@.take(i as int) =~= messages@);
    contents
}

fn part_to_json(p: &Part) -> (r: String)
    ensures
        r@ == part_json(p.text@),
{
    let mut out = String::from_str("{\"text\":");
    out.append(json_string(p.text.as_str()).as_str());
    out.append("}");
    out
}

fn content_to_json(c: &Content) -> (r: String)
    ensures
        r@ == content_json(c@),
{
    let ghost items = c@.parts.map_values(|t: Seq<char>| part_json(t));
    let mut list = String::new();
    let mut i: usize = 0;
    while i < c.parts.len()
        invariant
            i <= c.parts@.len(),
            items.len() == c.parts@.len(),
            forall|k: int| 0 <= k < items.len() ==> items[k] == part_json(#[trigger] c.parts@[k].text@),
            list@ == join_commas(items.take(i as int)),
        decreases c.parts@.len() - i,
    {
        let one = part_to_json(&c.parts[i]);
        proof {
            lemma_join_push(items, i as int, list@);
        }
        if i > 0 {
            list.append(",");
        }
        list.append(one.as_str());
        i = i + 1;
    }
    assert(items.take(i as int) =~= items);
    let mut out = String::from_str("{\"role\":");
    out.append(json_string(c.role.as_str()).as_str());
    out.append(",\"parts\":[");
    out.append(list.as_str());
    out.append("]}");
    out
}

impl ChatRequest {
    /// The request for a conversation.
    pub fn from_messages(messages: &Vec<ChatMessage>) -> (r: Self)
        ensures
            contents_view(r.contents@) == gemini_contents(messages_view(messages@)),
    {
        ChatRequest { contents: to_contents(messages) }
    }

    /// The request as compact JSON.
    pub fn to_json(&self) -> (r: String)
        ensures
            r@ == request_json(contents_view(self.contents@)),
    {
        let ghost items = contents_view(self.contents@).map_values(|c: ContentView| content_json(c));
        let mut list = String::new();
        let mut i: usize = 0;
        while i < self.contents.len()
            invariant
                i <= self.contents@.len(),
                items.len() == self.contents@.len(),
                forall|k: int| 0 <= k < items.len() ==> items[k] == content_json(#[trigger] self.contents@[k]@),
                list@ == join_commas(items.take(i as int)),
            decreases self.contents@.len() - i,
        {
            let one = content_to_json(&self.contents[i]);
            proof {
                lemma_join_push(items, i as int, list@);
            }
            if i > 0 {
                list.append(",");
            }
            list.append(one.as_str());
            i = i + 1;
        }
        assert(items.take(i as int) =~= items);
        let mut out = String::from_str("{\"contents\":[");
        out.append(list.as_str());
        out.append("]}");
        out
    }
}

/// The chat request to Gemini: a POST of the remapped conversation to
/// the generation endpoint of `model`, the key in the query, no
/// authorization header.
pub fn chat_request(api_url: &str, api_key: &str, model: &str, messages: Vec<ChatMessage>) -> (r: HttpRequest)
    ensures
        r.method == HttpMethod::Post,
        r.url@ == chat_url(api_url@, model@, api_key@),
        r.bearer_token is None,
        r.json_body matches Some(b) && b@ == request_json(gemini_contents(messages_view(messages@))),
{
    let body = ChatRequest::from_messages(&messages).to_json();
    let url = String::from_str(api_url).concat("/v1beta/models/").concat(model).concat(
        "/generateContent?key=",
    ).concat(api_key);
    HttpRequest { method: HttpMethod::Post, url, bearer_token: None, json_body: Some(body) }
}

/// What a decoded reply yields: the text of the first part of the first
/// candidate, or an `APIError` that tells a reply without candidates from a
/// candidate without parts.
pub open spec fn is_candidate_outcome(resp: ChatResponse, r: Result<AIResponse, AIError>) -> bool {
    if resp.candidates.len() == 0 {
        r matches Err(AIError::APIError(e)) && e@ == "No candidates in response"@
    } else if resp.candidates[0].content.parts.len() == 0 {
        r matches Err(AIError::APIError(e)) && e@ == "No content parts in response"@
    } else {
        r == Ok::<AIResponse, AIError>(
            AIResponse { content: resp.candidates[0].content.parts[0].text, reasoning: None },
        )
    }
}

/// The answer held by a decoded reply.
pub fn first_candidate(resp: &ChatResponse) -> (r: Result<AIResponse, AIError>)
    ensures
        is_candidate_outcome(*resp, r),
{
    if resp.candidates.len() == 0 {
        return Err(AIError::APIError(String::from_str("No candidates in response")));
    }
    let content = &resp.candidates[0].content;
    if content.parts.len() == 0 {
        Err(AIError::APIError(String::from_str("No content parts in response")))
    } else {
        Ok(AIResponse { content: content.parts[0].text.clone(), reasoning: None })
    }
}

/// The outcome of a chat exchange, from the status, the body and the body
/// decoded as a generation reply.
pub fn chat_outcome(status: u16, body: String, decoded: Result<ChatResponse, String>) -> (r: Result<AIResponse, AIError>)
    ensures
        !is_success(status) ==> r == Err::<AIResponse, AIError>(AIError::APIError(body)),
        is_success(status) ==> match decoded {
            Ok(resp) => is_candidate_outcome(resp, r),
            Err(e) => r == Err::<AIResponse, AIError>(AIError::DecodeError(e)),
        },
{
    match accept_reply(status, body, decoded) {
        Ok(resp) => first_candidate(&resp),
        Err(e) => Err(e),
    }
}

/// The models offered for Gemini: a fixed list, not fetched from the
/// provider.
pub fn known_models() -> (r: Vec<String>)
    ensures
        r@.len() == 3,
        r@[0]@ == "gemini-1.5-pro"@,
        r@[1]@ == "gemini-1.5-flash"@,
        r@[2]@ == "gemini-1.0-pro"@,
{
    let mut v: Vec<String> = Vec::new();
    v.push(String::from_str("gemini-1.5-pro"));
    v.push(String::from_str("gemini-1.5-flash"));
    v.push(String::from_str("gemini-1.0-pro"));
    v
}

} // verus!

use aichat_pro::ai::{accept_reply, status_is_success, AIError, ChatMessage, HttpMethod};
use aichat_pro::gemini::{self, Candidate, ChatResponse, Content, Part};
use aichat_pro::openai::{self, ChatCompletionRequest, ChatCompletionResponse, Choice, Model, ModelListResponse};

fn msg(role: &str, content: &str) -> ChatMessage {
    ChatMessage { role: role.to_string(), content: content.to_string() }
}

#[test]
fn gemini_drops_system_and_renames_assistant() {
    let messages = vec![msg("user", "hi"), msg("system", "ignored"), msg("assistant", "ok")];
    let contents = gemini::to_contents(&messages);
    assert_eq!(contents.len(), 2);
    assert_eq!(contents[0].role, "user");
    assert_eq!(contents[0].parts.len(), 1);
    assert_eq!(contents[0].parts[0].text, "hi");
    assert_eq!(contents[1].role, "model");
    assert_eq!(contents[1].parts[0].text, "ok");
}

#[test]
fn gemini_request_body() {
    let messages = vec![msg("user", "hi"), msg("system", "ignored"), msg("assistant", "ok")];
    let req = gemini::chat_request("https://g.example", "K1", "gemini-1.5-pro", messages);
    assert_eq!(req.method, HttpMethod::Post);
    assert_eq!(req.url, "https://g.example/v1beta/models/gemini-1.5-pro/generateContent?key=K1");
    assert!(req.bearer_token.is_none());
    assert_eq!(
        req.json_body.unwrap(),
        r#"{"contents":[{"role":"user","parts":[{"text":"hi"}]},{"role":"model","parts":[{"text":"ok"}]}]}"#
    );
}

#[test]
fn gemini_empty_conversation_body() {
    let req = gemini::ChatRequest::from_messages(&vec![msg("system", "only")]);
    assert_eq!(req.to_json(), r#"{"contents":[]}"#);
}

#[test]
fn openai_request_body_escapes_text() {
    let messages = vec![msg("system", "be brief"), msg("user", "Say \"hi\"\n")];
    let req = openai::chat_request("https://api.example.com", "sk-1", "gpt-4o", messages);
    assert_eq!(req.method, HttpMethod::Post);
    assert_eq!(req.url, "https://api.example.com/v1/chat/completions");
    assert_eq!(req.bearer_token.as_deref(), Some("sk-1"));
    assert_eq!(
        req.json_body.unwrap(),
        r#"{"model":"gpt-4o","messages":[{"role":"system","content":"be brief"},{"role":"user","content":"Say \"hi\"\n"}],"stream":false}"#
    );
}

#[test]
fn openai_request_struct() {
    let r = ChatCompletionRequest::new("m", vec![]);
    assert!(!r.stream);
    assert_eq!(r.to_json(), r#"{"model":"m","messages":[],"stream":false}"#);
}

#[test]
fn openai_models_request() {
    let req = openai::models_request("https://api.example.com", "sk-2");
    assert_eq!(req.method, HttpMethod::Get);
    assert_eq!(req.url, "https://api.example.com/v1/models");
    assert_eq!(req.bearer_token.as_deref(), Some("sk-2"));
    assert!(req.json_body.is_none());
}

#[test]
fn non_success_is_api_error_with_exact_body() {
    let body = "{\"error\": \"rate limited\"}".to_string();
    match openai::chat_outcome(429, body.clone(), Err("not a completion".to_string())) {
        Err(AIError::APIError(m)) => assert_eq!(m, body),
        other => panic!("unexpected {:?}", other),
    }
    match gemini::chat_outcome(500, "oops".to_string(), Err("x".to_string())) {
        Err(AIError::APIError(m)) => assert_eq!(m, "oops"),
        other => panic!("unexpected {:?}", other),
    }
    match openai::models_outcome(401, "no key".to_string(), Err("x".to_string())) {
        Err(AIError::APIError(m)) => assert_eq!(m, "no key"),
        other => panic!("unexpected {:?}", other),
    }
}

#[test]
fn non_success_wins_over_a_decodable_body() {
    let resp = ChatCompletionResponse { id: "c".to_string(), choices: vec![Choice { message: msg("assistant", "x") }] };
    match openai::chat_outcome(404, "missing".to_string(), Ok(resp)) {
        Err(AIError::APIError(m)) => assert_eq!(m, "missing"),
        other => panic!("unexpected {:?}", other),
    }
}

#[test]
fn success_with_bad_json_is_decode_error() {
    match openai::chat_outcome(200, "<html>".to_string(), Err("expected value".to_string())) {
        Err(AIError::DecodeError(m)) => assert_eq!(m, "expected value"),
        other => panic!("unexpected {:?}", other),
    }
}

#[test]
fn openai_first_choice_and_empty_choices() {
    let resp = ChatCompletionResponse {
        id: "c".to_string(),
        choices: vec![Choice { message: msg("assistant", "first") }, Choice { message: msg("assistant", "second") }],
    };
    let ok = openai::chat_outcome(200, String::new(), Ok(resp)).unwrap();
    assert_eq!(ok.content, "first");
    assert!(ok.reasoning.is_none());
    let empty = ChatCompletionResponse { id: "c".to_string(), choices: vec![] };
    match openai::chat_outcome(201, String::new(), Ok(empty)) {
        Err(AIError::APIError(m)) => assert_eq!(m, "No response generated"),
        other => panic!("unexpected {:?}", other),
    }
}

#[test]
fn gemini_candidate_errors_are_distinguished() {
    let none = ChatResponse { candidates: vec![] };
    match gemini::chat_outcome(200, String::new(), Ok(none)) {
        Err(AIError::APIError(m)) => assert_eq!(m, "No candidates in response"),
        other => panic!("unexpected {:?}", other),
    }
    let no_parts = ChatResponse {
        candidates: vec![Candidate { content: Content { role: "model".to_string(), parts: vec![] } }],
    };
    match gemini::chat_outcome(200, String::new(), Ok(no_parts)) {
        Err(AIError::APIError(m)) => assert_eq!(m, "No content parts in response"),
        other => panic!("unexpected {:?}", other),
    }
    let good = ChatResponse {
        candidates: vec![Candidate {
            content: Content { role: "model".to_string(), parts: vec![Part { text: "hello".to_string() }] },
        }],
    };
    assert_eq!(gemini::chat_outcome(299, String::new(), Ok(good)).unwrap().content, "hello");
}

#[test]
fn model_ids_in_order() {
    let resp = ModelListResponse { data: vec![Model { id: "a".to_string() }, Model { id: "b".to_string() }] };
    assert_eq!(openai::models_outcome(200, String::new(), Ok(resp)).unwrap(), vec!["a".to_string(), "b".to_string()]);
}

#[test]
fn gemini_fixed_model_list() {
    assert_eq!(gemini::known_models(), vec!["gemini-1.5-pro", "gemini-1.5-flash", "gemini-1.0-pro"]);
}

#[test]
fn status_range() {
    assert!(!status_is_success(199));
    assert!(status_is_success(200));
    assert!(status_is_success(299));
    assert!(!status_is_success(300));
    let r: Result<u8, AIError> = accept_reply(204, String::new(), Ok(7));
    assert_eq!(r.unwrap(), 7);
}

#[test]
fn error_messages() {
    assert_eq!(AIError::APIError("x".to_string()).message(), "API error: x");
    assert_eq!(AIError::TransportError("dns".to_string()).message(), "HTTP request error: dns");
    assert_eq!(AIError::DecodeError("eof".to_string()).message(), "JSON serialization error: eof");
}

#[test]
fn map_roles() {
    assert_eq!(gemini::map_role("user"), Some("user"));
    assert_eq!(gemini::map_role("assistant"), Some("model"));
    assert_eq!(gemini::map_role("system"), None);
    assert_eq!(gemini::map_role("User"), None);
}

#[test]
fn json_escapes_control_characters() {
    let r = ChatCompletionRequest::new("a\tb\u{1}c\\d\u{7f}", vec![]);
    assert_eq!(r.to_json(), "{\"model\":\"a\\tb\\u0001c\\\\d\u{7f}\",\"messages\":[],\"stream\":false}");
}

use aichat_pro::ai::{AIError, AIResponse, ChatMessage, HttpMethod};
use aichat_pro::commands::{
    add_provider_plan, find_model, listing_error, model_listing_plan, provider_id_from, send_chat_plan,
    update_provider_plan, verification_result, verify_model_plan, ModelListing,
};
use aichat_pro::credentials::{delete_api_key, get_api_key, lookup_outcome, CredentialError};
use aichat_pro::db::{AIModel, AIProvider, Statement};
use aichat_pro::resolver::{Protocol, ProviderType};

fn provider(id: &str, name: &str, url: &str, key: Option<&str>) -> AIProvider {
    AIProvider {
        id: id.to_string(),
        name: name.to_string(),
        api_url: url.to_string(),
        api_key_name: format!("{}_api_key", id),
        api_key: key.map(|k| k.to_string()),
        created_at: 0,
        updated_at: 0,
    }
}

fn model(id: &str, name: &str) -> AIModel {
    AIModel { id: id.to_string(), provider_id: "p".to_string(), name: name.to_string(), created_at: 0, updated_at: 0 }
}

fn hello() -> Vec<ChatMessage> {
    vec![ChatMessage { role: "user".to_string(), content: "hi".to_string() }]
}

#[test]
fn chat_needs_a_provider() {
    let r = send_chat_plan("p", None, &vec![], "m", hello());
    assert_eq!(r.unwrap_err(), "Provider not found");
}

#[test]
fn chat_needs_a_cached_key() {
    let p = provider("openai", "OpenAI", "https://api.openai.com", None);
    let r = send_chat_plan("openai", Some(p), &vec![model("m", "gpt-4o")], "m", hello());
    assert_eq!(r.unwrap_err(), "API key not set for this provider. Please set an API key in the Providers page.");
}

#[test]
fn chat_needs_the_model() {
    let p = provider("openai", "OpenAI", "https://api.openai.com", Some("sk"));
    let r = send_chat_plan("openai", Some(p), &vec![model("m", "gpt-4o")], "other", hello());
    assert_eq!(r.unwrap_err(), "Model with ID other not found");
}

#[test]
fn chat_to_gemini_uses_model_name_and_key_in_query() {
    let p = provider("gemini", "Google Gemini", "https://generativelanguage.googleapis.com", Some("G"));
    let models = vec![model("a", "gemini-a"), model("b", "gemini-1.5-pro")];
    let plan = send_chat_plan("gemini", Some(p), &models, "b", hello()).unwrap();
    assert_eq!(plan.protocol, Protocol::Gemini);
    assert_eq!(plan.request.method, HttpMethod::Post);
    assert_eq!(
        plan.request.url,
        "https://generativelanguage.googleapis.com/v1beta/models/gemini-1.5-pro/generateContent?key=G"
    );
}

#[test]
fn chat_to_custom_speaks_openai() {
    let p = provider("x-1", "Local box", "http://localhost:8080", Some("k"));
    let plan = send_chat_plan("x-1", Some(p), &vec![model("m", "llama")], "m", hello()).unwrap();
    assert_eq!(plan.protocol, Protocol::OpenAICompatible);
    assert_eq!(plan.request.url, "http://localhost:8080/v1/chat/completions");
    assert_eq!(plan.request.bearer_token.as_deref(), Some("k"));
}

#[test]
fn verification_sends_hello() {
    let p = provider("deepseek", "DeepSeek API", "https://api.deepseek.com", Some("d"));
    let plan = verify_model_plan("deepseek", Some(p), "deepseek-chat").unwrap();
    assert_eq!(plan.protocol, Protocol::OpenAICompatible);
    assert_eq!(
        plan.request.json_body.unwrap(),
        r#"{"model":"deepseek-chat","messages":[{"role":"user","content":"Hello"}],"stream":false}"#
    );
    let no_key = provider("deepseek", "DeepSeek API", "https://api.deepseek.com", None);
    assert_eq!(verify_model_plan("deepseek", Some(no_key), "m").unwrap_err(), "API key not found for provider");
    assert_eq!(verify_model_plan("deepseek", None, "m").unwrap_err(), "Provider not found");
}

#[test]
fn verification_maps_every_failure_to_false() {
    assert!(verification_result(&Ok(AIResponse { content: "hi".to_string(), reasoning: None })));
    assert!(!verification_result(&Err(AIError::TransportError("down".to_string()))));
    assert!(!verification_result(&Err(AIError::APIError("401".to_string()))));
    assert!(!verification_result(&Err(AIError::DecodeError("bad".to_string()))));
}

#[test]
fn gemini_models_are_fixed() {
    let p = provider("gemini", "Google Gemini", "https://generativelanguage.googleapis.com", Some("G"));
    match model_listing_plan("gemini", Some(p)).unwrap() {
        ModelListing::Known(v) => assert_eq!(v, vec!["gemini-1.5-pro", "gemini-1.5-flash", "gemini-1.0-pro"]),
        other => panic!("unexpected {:?}", other),
    }
}

#[test]
fn other_models_are_fetched() {
    let p = provider("grok", "Grok", "https://api.grok.x.ai", Some("x"));
    match model_listing_plan("grok", Some(p)).unwrap() {
        ModelListing::Fetch { provider_type, request } => {
            assert_eq!(provider_type, ProviderType::Grok);
            assert_eq!(request.method, HttpMethod::Get);
            assert_eq!(request.url, "https://api.grok.x.ai/v1/models");
        }
        other => panic!("unexpected {:?}", other),
    }
    assert_eq!(model_listing_plan("grok", None).unwrap_err(), "Provider not found");
}

#[test]
fn listing_error_messages() {
    let e = AIError::APIError("nope".to_string());
    assert_eq!(listing_error(ProviderType::OpenAI, &e), "API error: nope");
    assert_eq!(
        listing_error(ProviderType::Custom, &e),
        "Custom provider API error: API error: nope. This provider might not support model listing or might not be OpenAI-compatible."
    );
}

#[test]
fn provider_ids_from_prefix() {
    let uuid = "1234abcd-0000-4000-8000-000000000000";
    assert_eq!(provider_id_from(Some("openai"), uuid), "openai-1234abcd");
    assert_eq!(provider_id_from(None, uuid), uuid);
    assert_eq!(provider_id_from(Some("x"), "nodash"), "x-nodash");
}

#[test]
fn new_provider_from_form() {
    let (id, st) = add_provider_plan("My Grok", "https://api.grok.x.ai", "key", Some("grok"));
    assert!(id.starts_with("grok-"));
    assert_eq!(id.len(), "grok-".len() + 8);
    match st {
        Statement::InsertProvider(p) => {
            assert_eq!(p.id, id);
            assert_eq!(p.api_key_name, "My Grok");
            assert_eq!(p.api_key.as_deref(), Some("key"));
        }
        other => panic!("unexpected {:?}", other),
    }
    let (plain, _) = add_provider_plan("n", "u", "k", None);
    assert_eq!(plain.len(), 36);
}

#[test]
fn update_keeps_key_name() {
    let current = provider("openai", "OpenAI", "https://api.openai.com", Some("old"));
    match update_provider_plan(Some(current), "openai", "OpenAI 2", "https://x", None).unwrap() {
        Statement::UpdateProvider { api_key_name, api_key, name, .. } => {
            assert_eq!(api_key_name, "openai_api_key");
            assert!(api_key.is_none());
            assert_eq!(name, "OpenAI 2");
        }
        other => panic!("unexpected {:?}", other),
    }
    assert_eq!(update_provider_plan(None, "x", "n", "u", None).unwrap_err(), "Provider not found");
}

#[test]
fn find_first_model() {
    let models = vec![model("a", "1"), model("b", "2"), model("b", "3")];
    assert_eq!(find_model(&models, "b"), Some(1));
    assert_eq!(find_model(&models, "c"), None);
}

#[test]
fn keyring_lookup_outcomes() {
    assert_eq!(lookup_outcome(Ok("secret".to_string())).unwrap(), "secret");
    assert!(matches!(lookup_outcome(Err(keyring::Error::NoEntry)), Err(CredentialError::NoCredentialFound)));
    assert_eq!(CredentialError::NoCredentialFound.message(), "No credential found");
}

#[test]
fn missing_key_is_not_found() {
    assert!(get_api_key("aichat-pro-test-key-that-was-never-stored").is_err());
}

#[test]
fn deleting_a_missing_key_succeeds() {
    assert!(delete_api_key("aichat-pro-test-key-that-was-never-stored").is_ok());
}

use aichat_pro::resolver::{determine_provider_type, provider_type, resolve_lowered, Protocol, ProviderType};

#[test]
fn id_prefix_openai() {
    assert_eq!(determine_provider_type("openai-x", "", ""), "openai");
}

#[test]
fn deepseek_from_url_when_id_has_no_known_prefix() {
    assert_eq!(determine_provider_type("my-deepseek", "https://api.deepseek.com", ""), "deepseek");
}

#[test]
fn deepseek_from_name_when_id_has_no_known_prefix() {
    assert_eq!(determine_provider_type("my-deepseek", "", "DeepSeek"), "deepseek");
}

#[test]
fn id_match_is_by_prefix_only() {
    assert_eq!(determine_provider_type("my-deepseek", "", ""), "custom");
}

#[test]
fn gemini_from_url() {
    assert_eq!(
        determine_provider_type("", "https://generativelanguage.googleapis.com", ""),
        "gemini"
    );
}

#[test]
fn grok_from_name() {
    assert_eq!(determine_provider_type("", "", "My Grok Box"), "grok");
}

#[test]
fn all_empty_is_custom() {
    assert_eq!(determine_provider_type("", "", ""), "custom");
}

#[test]
fn url_match_ignores_case() {
    assert_eq!(determine_provider_type("", "HTTPS://API.OPENAI.COM/", ""), "openai");
    assert_eq!(determine_provider_type("", "https://X.AI", "gemini"), "grok");
}

#[test]
fn id_wins_over_url_and_url_over_name() {
    assert_eq!(determine_provider_type("gemini-1", "https://api.openai.com", "grok"), "gemini");
    assert_eq!(determine_provider_type("abc", "https://api.openai.com", "grok"), "openai");
    assert_eq!(determine_provider_type("custom-9", "https://api.openai.com", ""), "custom");
}

#[test]
fn resolve_is_repeatable() {
    for _ in 0..3 {
        assert_eq!(provider_type("x", "https://api.deepseek.com", ""), ProviderType::DeepSeek);
    }
}

#[test]
fn lowered_inputs_are_taken_as_given() {
    assert_eq!(resolve_lowered("", "HTTPS://API.OPENAI.COM", ""), ProviderType::Custom);
    assert_eq!(resolve_lowered("", "https://api.openai.com", ""), ProviderType::OpenAI);
}

#[test]
fn protocol_of_each_type() {
    assert_eq!(ProviderType::Gemini.protocol(), Protocol::Gemini);
    assert_eq!(ProviderType::Custom.protocol(), Protocol::OpenAICompatible);
    assert_eq!(ProviderType::Grok.protocol(), Protocol::OpenAICompatible);
    assert_eq!(ProviderType::DeepSeek.as_str(), "deepseek");
}

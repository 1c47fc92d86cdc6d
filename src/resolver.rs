//! Inference of the wire protocol that a configured provider speaks.

use vstd::prelude::*;
use crate::text::{contains, is_prefix, lowercase_of, occurs_in, starts_with, to_lowercase};

verus! {

/// The provider family that a configuration points at.
#[derive(Debug, Clone, Copy, PartialEq, Eq, Structural)]
pub enum ProviderType {
    OpenAI,
    DeepSeek,
    Grok,
    Gemini,
    Custom,
}

/// The wire protocol used to talk to a provider.
#[derive(Debug, Clone, Copy, PartialEq, Eq, Structural)]
pub enum Protocol {
    OpenAICompatible,
    Gemini,
}

impl ProviderType {
    /// The tag under which the family is known.
    pub open spec fn tag(self) -> Seq<char> {
        match self {
            ProviderType::OpenAI => "openai"@,
            ProviderType::DeepSeek => "deepseek"@,
            ProviderType::Grok => "grok"@,
            ProviderType::Gemini => "gemini"@,
            ProviderType::Custom => "custom"@,
        }
    }

    /// Gemini has a protocol of its own; every other family, `custom`
    /// included, speaks the OpenAI-compatible one.
    pub open spec fn spec_protocol(self) -> Protocol {
        match self {
            ProviderType::Gemini => Protocol::Gemini,
            _ => Protocol::OpenAICompatible,
        }
    }

    pub fn as_str(&self) -> (r: &'static str)
        ensures
            r@ == self.tag(),
    {
        match self {
            ProviderType::OpenAI => "openai",
            ProviderType::DeepSeek => "deepseek",
            ProviderType::Grok => "grok",
            ProviderType::Gemini => "gemini",
            ProviderType::Custom => "custom",
        }
    }

    pub fn protocol(&self) -> (r: Protocol)
        ensures
            r == self.spec_protocol(),
    {
        match self {
            ProviderType::Gemini => Protocol::Gemini,
            _ => Protocol::OpenAICompatible,
        }
    }
}

/// The family named by the start of a provider id, if any.
pub open spec fn type_from_id(id: Seq<char>) -> Option<ProviderType> {
    if is_prefix("openai"@, id) {
        Some(ProviderType::OpenAI)
    } else if is_prefix("deepseek"@, id) {
        Some(ProviderType::DeepSeek)
    } else if is_prefix("grok"@, id) {
        Some(ProviderType::Grok)
    } else if is_prefix("gemini"@, id) {
        Some(ProviderType::Gemini)
    } else if is_prefix("custom"@, id) {
        Some(ProviderType::Custom)
    } else {
        None
    }
}

/// The family named by a domain fragment of a lower-cased base URL, if any.
pub open spec fn type_from_url(url: Seq<char>) -> Option<ProviderType> {
    if occurs_in("openai.com"@, url) {
        Some(ProviderType::OpenAI)
    } else if occurs_in("deepseek.com"@, url) {
        Some(ProviderType::DeepSeek)
    } else if occurs_in("grok.x.ai"@, url) || occurs_in("x.ai"@, url) {
        Some(ProviderType::Grok)
    } else if occurs_in("googleapis.com"@, url) || occurs_in("generativelanguage"@, url) {
        Some(ProviderType::Gemini)
    } else {
        None
    }
}

/// The family named inside a lower-cased display name, if any.
pub open spec fn type_from_name(name: Seq<char>) -> Option<ProviderType> {
    if occurs_in("openai"@, name) {
        Some(ProviderType::OpenAI)
    } else if occurs_in("deepseek"@, name) {
        Some(ProviderType::DeepSeek)
    } else if occurs_in("grok"@, name) {
        Some(ProviderType::Grok)
    } else if occurs_in("gemini"@, name) {
        Some(ProviderType::Gemini)
    } else {
        None
    }
}

/// The family of a provider, from its id, its lower-cased base URL and its
/// lower-cased display name: the first of the three that names one wins, and
/// `custom` is the fallback.
pub open spec fn resolve(id: Seq<char>, url_lower: Seq<char>, name_lower: Seq<char>) -> ProviderType {
    match type_from_id(id) {
        Some(t) => t,
        None => match type_from_url(url_lower) {
            Some(t) => t,
            None => match type_from_name(name_lower) {
                Some(t) => t,
                None => ProviderType::Custom,
            },
        },
    }
}

fn id_type(id: &str) -> (r: Option<ProviderType>)
    ensures
        r == type_from_id(id@),
{
    if starts_with(id, "openai") {
        Some(ProviderType::OpenAI)
    } else if starts_with(id, "deepseek") {
        Some(ProviderType::DeepSeek)
    } else if starts_with(id, "grok") {
        Some(ProviderType::Grok)
    } else if starts_with(id, "gemini") {
        Some(ProviderType::Gemini)
    } else if starts_with(id, "custom") {
        Some(ProviderType::Custom)
    } else {
        None
    }
}

fn url_type(url: &str) -> (r: Option<ProviderType>)
    ensures
        r == type_from_url(url@),
{
    if contains(url, "openai.com") {
        Some(ProviderType::OpenAI)
    } else if contains(url, "deepseek.com") {
        Some(ProviderType::DeepSeek)
    } else if contains(url, "grok.x.ai") || contains(url, "x.ai") {
        Some(ProviderType::Grok)
    } else if contains(url, "googleapis.com") || contains(url, "generativelanguage") {
        Some(ProviderType::Gemini)
    } else {
        None
    }
}

fn name_type(name: &str) -> (r: Option<ProviderType>)
    ensures
        r == type_from_name(name@),
{
    if contains(name, "openai") {
        Some(ProviderType::OpenAI)
    } else if contains(name, "deepseek") {
        Some(ProviderType::DeepSeek)
    } else if contains(name, "grok") {
        Some(ProviderType::Grok)
    } else if contains(name, "gemini") {
        Some(ProviderType::Gemini)
    } else {
        None
    }
}

/// The family of a provider whose base URL and display name are already
/// lower-cased.
pub fn resolve_lowered(provider_id: &str, api_url_lower: &str, name_lower: &str) -> (r: ProviderType)
    ensures
        r == resolve(provider_id@, api_url_lower@, name_lower@),
{
    match id_type(provider_id) {
        Some(t) => t,
        None => match url_type(api_url_lower) {
            Some(t) => t,
            None => match name_type(name_lower) {
                Some(t) => t,
                None => ProviderType::Custom,
            },
        },
    }
}

/// The family of a provider, matching the base URL and the display name
/// without regard to case.
pub fn provider_type(provider_id: &str, api_url: &str, provider_name: &str) -> (r: ProviderType)
    ensures
        r == resolve(provider_id@, lowercase_of(api_url@), lowercase_of(provider_name@)),
{
    let url_lower = to_lowercase(api_url);
    let name_lower = to_lowercase(provider_name);
    resolve_lowered(provider_id, url_lower.as_str(), name_lower.as_str())
}

/// The tag of a provider's family; never fails, and depends on its three
/// arguments alone.
pub fn determine_provider_type(provider_id: &str, api_url: &str, provider_name: &str) -> (r: String)
    ensures
        r@ == resolve(provider_id@, lowercase_of(api_url@), lowercase_of(provider_name@)).tag(),
{
    let t = provider_type(provider_id, api_url, provider_name);
    String::from_str(t.as_str())
}

} // verus!

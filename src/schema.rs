//! The store's tables, the rows it starts with, and its migration.

use vstd::prelude::*;

verus! {

/// Creates every table where it is missing, and the default theme setting.
pub const SCHEMA_SQL: &'static str = r#"
CREATE TABLE IF NOT EXISTS ai_providers (
    id TEXT PRIMARY KEY,
    name TEXT NOT NULL,
    api_url TEXT NOT NULL,
    api_key_name TEXT NOT NULL,
    api_key TEXT,
    created_at INTEGER NOT NULL,
    updated_at INTEGER NOT NULL
);

CREATE TABLE IF NOT EXISTS ai_models (
    id TEXT PRIMARY KEY,
    provider_id TEXT NOT NULL,
    name TEXT NOT NULL,
    created_at INTEGER NOT NULL,
    updated_at INTEGER NOT NULL,
    FOREIGN KEY (provider_id) REFERENCES ai_providers(id)
);

CREATE TABLE IF NOT EXISTS chat_sessions (
    id TEXT PRIMARY KEY,
    name TEXT NOT NULL,
    model_id TEXT,
    system_prompt TEXT,
    created_at INTEGER NOT NULL,
    updated_at INTEGER NOT NULL,
    FOREIGN KEY (model_id) REFERENCES ai_models(id)
);

CREATE TABLE IF NOT EXISTS chat_messages (
    id TEXT PRIMARY KEY,
    session_id TEXT NOT NULL,
    role TEXT NOT NULL CHECK(role IN ('user', 'assistant', 'system')),
    content TEXT NOT NULL,
    reasoning TEXT,
    timestamp INTEGER NOT NULL,
    FOREIGN KEY (session_id) REFERENCES chat_sessions(id)
);

CREATE TABLE IF NOT EXISTS assistants (
    id TEXT PRIMARY KEY,
    name TEXT NOT NULL,
    description TEXT NOT NULL,
    system_prompt TEXT NOT NULL,
    created_at INTEGER NOT NULL,
    updated_at INTEGER NOT NULL
);

CREATE TABLE IF NOT EXISTS app_settings (
    key TEXT PRIMARY KEY,
    value TEXT NOT NULL
);

INSERT OR IGNORE INTO app_settings (key, value) VALUES ('theme', 'system');
"#;

/// The four well-known providers, each added where its id is free.
pub const DEFAULT_PROVIDERS_SQL: &'static str = r#"
INSERT OR IGNORE INTO ai_providers (id, name, api_url, api_key_name, api_key, created_at, updated_at)
VALUES ('openai', 'OpenAI', 'https://api.openai.com', 'openai_api_key', NULL, unixepoch(), unixepoch());

INSERT OR IGNORE INTO ai_providers (id, name, api_url, api_key_name, api_key, created_at, updated_at)
VALUES ('gemini', 'Google Gemini', 'https://generativelanguage.googleapis.com', 'gemini_api_key', NULL, unixepoch(), unixepoch());

INSERT OR IGNORE INTO ai_providers (id, name, api_url, api_key_name, api_key, created_at, updated_at)
VALUES ('deepseek', 'DeepSeek API', 'https://api.deepseek.com', 'deepseek_api_key', NULL, unixepoch(), unixepoch());

INSERT OR IGNORE INTO ai_providers (id, name, api_url, api_key_name, api_key, created_at, updated_at)
VALUES ('grok', 'Grok', 'https://api.grok.x.ai', 'grok_api_key', NULL, unixepoch(), unixepoch());
"#;

/// Counts the `api_key` columns of the providers table.
pub const API_KEY_COLUMN_COUNT_SQL: &'static str = "SELECT COUNT(*) FROM pragma_table_info('ai_providers') WHERE name = 'api_key'";

pub const ADD_API_KEY_COLUMN_SQL: &'static str = "ALTER TABLE ai_providers ADD COLUMN api_key TEXT";

/// Whether a store opened from an earlier file lacks the cached-key column,
/// from the count that [`API_KEY_COLUMN_COUNT_SQL`] reads.
pub fn needs_api_key_column(column_count: i64) -> (r: bool)
    ensures
        r == (column_count == 0),
{
    column_count == 0
}

} // verus!

//! The relational store: its rows, the statements that change it and the
//! queries that read it, each with its SQL text and bound parameters, and
//! the statement lists that each store operation runs in one transaction.

use vstd::prelude::*;
use crate::time::get_current_timestamp;
use crate::ids::new_uuid;
use crate::text::equals;

verus! {

#[derive(Debug, Clone)]
pub struct AIProvider {
    pub id: String,
    pub name: String,
    pub api_url: String,
    pub api_key_name: String,
    pub api_key: Option<String>,
    pub created_at: i64,
    pub updated_at: i64,
}

#[derive(Debug, Clone)]
pub struct AIModel {
    pub id: String,
    pub provider_id: String,
    pub name: String,
    pub created_at: i64,
    pub updated_at: i64,
}

#[derive(Debug, Clone)]
pub struct ChatSession {
    pub id: String,
    pub name: String,
    pub model_id: Option<String>,
    pub system_prompt: Option<String>,
    pub created_at: i64,
    pub updated_at: i64,
}

#[derive(Debug, Clone)]
pub struct ChatMessage {
    pub id: String,
    pub session_id: String,
    pub role: String,
    pub content: String,
    pub reasoning: Option<String>,
    pub timestamp: i64,
}

#[derive(Debug, Clone)]
pub struct Assistant {
    pub id: String,
    pub name: String,
    pub description: String,
    pub system_prompt: String,
    pub created_at: i64,
    pub updated_at: i64,
}

/// A value bound to a statement parameter.
#[derive(Debug, Clone)]
pub enum SqlValue {
    Null,
    Integer(i64),
    Text(String),
}

pub open spec fn opt_text(o: Option<String>) -> SqlValue {
    match o {
        Some(s) => SqlValue::Text(s),
        None => SqlValue::Null,
    }
}

fn opt_value(o: &Option<String>) -> (r: SqlValue)
    ensures
        r == opt_text(*o),
{
    match o {
        Some(s) => SqlValue::Text(s.clone()),
        None => SqlValue::Null,
    }
}

fn text_of(s: &str) -> (r: String)
    ensures
        r@ == s@,
{
    String::from_str(s)
}

fn opt_string(o: Option<&str>) -> (r: Option<String>)
    ensures
        r is Some <==> o is Some,
        r matches Some(s) ==> s@ == o->0@,
{
    match o {
        Some(s) => Some(String::from_str(s)),
        None => None,
    }
}

/// One change to the store.
#[allow(inconsistent_fields)]
#[derive(Debug, Clone)]
pub enum Statement {
    InsertProvider(AIProvider),
    /// Sets name, URL, key name and update time; the cached key only where
    /// one is given.
    UpdateProvider {
        id: String,
        name: String,
        api_url: String,
        api_key_name: String,
        api_key: Option<String>,
        updated_at: i64,
    },
    DeleteProvider { id: String },
    InsertModel(AIModel),
    DeleteModelsOfProvider { provider_id: String },
    DeleteModel { id: String },
    /// Clears the model reference of every session that names the model.
    DetachModel { model_id: String },
    InsertSession(ChatSession),
    UpdateSession {
        id: String,
        name: String,
        model_id: Option<String>,
        system_prompt: Option<String>,
        updated_at: i64,
    },
    TouchSession { id: String, updated_at: i64 },
    DeleteSession { id: String },
    InsertMessage(ChatMessage),
    DeleteMessagesOfSession { session_id: String },
    InsertAssistant(Assistant),
    UpdateAssistant {
        id: String,
        name: String,
        description: String,
        system_prompt: String,
        updated_at: i64,
    },
    DeleteAssistant { id: String },
    /// Inserts the pair, replacing any value held under the key.
    PutSetting { key: String, value: String },
}

impl Statement {
    /// The values bound to the statement's parameters, in order.
    pub open spec fn spec_params(self) -> Seq<SqlValue> {
        match self {
            Statement::InsertProvider(p) => seq![
                SqlValue::Text(p.id),
                SqlValue::Text(p.name),
                SqlValue::Text(p.api_url),
                SqlValue::Text(p.api_key_name),
                opt_text(p.api_key),
                SqlValue::Integer(p.created_at),
                SqlValue::Integer(p.updated_at),
            ],
            Statement::UpdateProvider { id, name, api_url, api_key_name, api_key, updated_at } => {
                match api_key {
                    Some(k) => seq![
                        SqlValue::Text(name),
                        SqlValue::Text(api_url),
                        SqlValue::Text(api_key_name),
                        SqlValue::Text(k),
                        SqlValue::Integer(updated_at),
                        SqlValue::Text(id),
                    ],
                    None => seq![
                        SqlValue::Text(name),
                        SqlValue::Text(api_url),
                        SqlValue::Text(api_key_name),
                        SqlValue::Integer(updated_at),
                        SqlValue::Text(id),
                    ],
                }
            },
            Statement::DeleteProvider { id } => seq![SqlValue::Text(id)],
            Statement::InsertModel(m) => seq![
                SqlValue::Text(m.id),
                SqlValue::Text(m.provider_id),
                SqlValue::Text(m.name),
                SqlValue::Integer(m.created_at),
                SqlValue::Integer(m.updated_at),
            ],
            Statement::DeleteModelsOfProvider { provider_id } => seq![SqlValue::Text(provider_id)],
            Statement::DeleteModel { id } => seq![SqlValue::Text(id)],
            Statement::DetachModel { model_id } => seq![SqlValue::Text(model_id)],
            Statement::InsertSession(s) => seq![
                SqlValue::Text(s.id),
                SqlValue::Text(s.name),
                opt_text(s.model_id),
                opt_text(s.system_prompt),
                SqlValue::Integer(s.created_at),
                SqlValue::Integer(s.updated_at),
            ],
            Statement::UpdateSession { id, name, model_id, system_prompt, updated_at } => seq![
                SqlValue::Text(name),
                opt_text(model_id),
                opt_text(system_prompt),
                SqlValue::Integer(updated_at),
                SqlValue::Text(id),
            ],
            Statement::TouchSession { id, updated_at } => seq![
                SqlValue::Integer(updated_at),
                SqlValue::Text(id),
            ],
            Statement::DeleteSession { id } => seq![SqlValue::Text(id)],
            Statement::InsertMessage(m) => seq![
                SqlValue::Text(m.id),
                SqlValue::Text(m.session_id),
                SqlValue::Text(m.role),
                SqlValue::Text(m.content),
                opt_text(m.reasoning),
                SqlValue::Integer(m.timestamp),
            ],
            Statement::DeleteMessagesOfSession { session_id } => seq![SqlValue::Text(session_id)],
            Statement::InsertAssistant(a) => seq![
                SqlValue::Text(a.id),
                SqlValue::Text(a.name),
                SqlValue::Text(a.description),
                SqlValue::Text(a.system_prompt),
                SqlValue::Integer(a.created_at),
                SqlValue::Integer(a.updated_at),
            ],
            Statement::UpdateAssistant { id, name, description, system_prompt, updated_at } => seq![
                SqlValue::Text(name),
                SqlValue::Text(description),
                SqlValue::Text(system_prompt),
                SqlValue::Integer(updated_at),
                SqlValue::Text(id),
            ],
            Statement::DeleteAssistant { id } => seq![SqlValue::Text(id)],
            Statement::PutSetting { key, value } => seq![SqlValue::Text(key), SqlValue::Text(value)],
        }
    }

    /// The SQL text of the statement; it does to the store what
    /// [`crate::tables::apply`] says.
    pub open spec fn sql_text(self) -> Seq<char> {
        match self {
            Statement::InsertProvider(_) => "INSERT INTO ai_providers (id, name, api_url, api_key_name, api_key, created_at, updated_at) VALUES (?, ?, ?, ?, ?, ?, ?)"@,
            Statement::UpdateProvider { api_key, .. } => match api_key {
                Some(_) => "UPDATE ai_providers SET name = ?, api_url = ?, api_key_name = ?, api_key = ?, updated_at = ? WHERE id = ?"@,
                None => "UPDATE ai_providers SET name = ?, api_url = ?, api_key_name = ?, updated_at = ? WHERE id = ?"@,
            },
            Statement::DeleteProvider { .. } => "DELETE FROM ai_providers WHERE id = ?"@,
            Statement::InsertModel(_) => "INSERT INTO ai_models (id, provider_id, name, created_at, updated_at) VALUES (?, ?, ?, ?, ?)"@,
            Statement::DeleteModelsOfProvider { .. } => "DELETE FROM ai_models WHERE provider_id = ?"@,
            Statement::DeleteModel { .. } => "DELETE FROM ai_models WHERE id = ?"@,
            Statement::DetachModel { .. } => "UPDATE chat_sessions SET model_id = NULL WHERE model_id = ?"@,
            Statement::InsertSession(_) => "INSERT INTO chat_sessions (id, name, model_id, system_prompt, created_at, updated_at) VALUES (?, ?, ?, ?, ?, ?)"@,
            Statement::UpdateSession { .. } => "UPDATE chat_sessions SET name = ?, model_id = ?, system_prompt = ?, updated_at = ? WHERE id = ?"@,
            Statement::TouchSession { .. } => "UPDATE chat_sessions SET updated_at = ? WHERE id = ?"@,
            Statement::DeleteSession { .. } => "DELETE FROM chat_sessions WHERE id = ?"@,
            Statement::InsertMessage(_) => "INSERT INTO chat_messages (id, session_id, role, content, reasoning, timestamp) VALUES (?, ?, ?, ?, ?, ?)"@,
            Statement::DeleteMessagesOfSession { .. } => "DELETE FROM chat_messages WHERE session_id = ?"@,
            Statement::InsertAssistant(_) => "INSERT INTO assistants (id, name, description, system_prompt, created_at, updated_at) VALUES (?, ?, ?, ?, ?, ?)"@,
            Statement::UpdateAssistant { .. } => "UPDATE assistants SET name = ?, description = ?, system_prompt = ?, updated_at = ? WHERE id = ?"@,
            Statement::DeleteAssistant { .. } => "DELETE FROM assistants WHERE id = ?"@,
            Statement::PutSetting { .. } => "INSERT OR REPLACE INTO app_settings (key, value) VALUES (?, ?)"@,
        }
    }

    /// The SQL text, with one `?` per parameter.
    pub fn sql(&self) -> (r: &'static str)
        ensures
            r@ == self.sql_text(),
    {
        match self {
            Statement::InsertProvider(_) => "INSERT INTO ai_providers (id, name, api_url, api_key_name, api_key, created_at, updated_at) VALUES (?, ?, ?, ?, ?, ?, ?)",
            Statement::UpdateProvider { api_key, .. } => match api_key {
                Some(_) => "UPDATE ai_providers SET name = ?, api_url = ?, api_key_name = ?, api_key = ?, updated_at = ? WHERE id = ?",
                None => "UPDATE ai_providers SET name = ?, api_url = ?, api_key_name = ?, updated_at = ? WHERE id = ?",
            },
            Statement::DeleteProvider { .. } => "DELETE FROM ai_providers WHERE id = ?",
            Statement::InsertModel(_) => "INSERT INTO ai_models (id, provider_id, name, created_at, updated_at) VALUES (?, ?, ?, ?, ?)",
            Statement::DeleteModelsOfProvider { .. } => "DELETE FROM ai_models WHERE provider_id = ?",
            Statement::DeleteModel { .. } => "DELETE FROM ai_models WHERE id = ?",
            Statement::DetachModel { .. } => "UPDATE chat_sessions SET model_id = NULL WHERE model_id = ?",
            Statement::InsertSession(_) => "INSERT INTO chat_sessions (id, name, model_id, system_prompt, created_at, updated_at) VALUES (?, ?, ?, ?, ?, ?)",
            Statement::UpdateSession { .. } => "UPDATE chat_sessions SET name = ?, model_id = ?, system_prompt = ?, updated_at = ? WHERE id = ?",
            Statement::TouchSession { .. } => "UPDATE chat_sessions SET updated_at = ? WHERE id = ?",
            Statement::DeleteSession { .. } => "DELETE FROM chat_sessions WHERE id = ?",
            Statement::InsertMessage(_) => "INSERT INTO chat_messages (id, session_id, role, content, reasoning, timestamp) VALUES (?, ?, ?, ?, ?, ?)",
            Statement::DeleteMessagesOfSession { .. } => "DELETE FROM chat_messages WHERE session_id = ?",
            Statement::InsertAssistant(_) => "INSERT INTO assistants (id, name, description, system_prompt, created_at, updated_at) VALUES (?, ?, ?, ?, ?, ?)",
            Statement::UpdateAssistant { .. } => "UPDATE assistants SET name = ?, description = ?, system_prompt = ?, updated_at = ? WHERE id = ?",
            Statement::DeleteAssistant { .. } => "DELETE FROM assistants WHERE id = ?",
            Statement::PutSetting { .. } => "INSERT OR REPLACE INTO app_settings (key, value) VALUES (?, ?)",
        }
    }

    /// The values to bind, in the order of the `?` in [`Statement::sql`].
    pub fn params(&self) -> (r: Vec<SqlValue>)
        ensures
            r@ == self.spec_params(),
    {
        let mut v: Vec<SqlValue> = Vec::new();
        match self {
            Statement::InsertProvider(p) => {
                v.push(SqlValue::Text(p.id.clone()));
                v.push(SqlValue::Text(p.name.clone()));
                v.push(SqlValue::Text(p.api_url.clone()));
                v.push(SqlValue::Text(p.api_key_name.clone()));
                v.push(opt_value(&p.api_key));
                v.push(SqlValue::Integer(p.created_at));
                v.push(SqlValue::Integer(p.updated_at));
            },
            Statement::UpdateProvider { id, name, api_url, api_key_name, api_key, updated_at } => {
                v.push(SqlValue::Text(name.clone()));
                v.push(SqlValue::Text(api_url.clone()));
                v.push(SqlValue::Text(api_key_name.clone()));
                match api_key {
                    Some(k) => v.push(SqlValue::Text(k.clone())),
                    None => {},
                }
                v.push(SqlValue::Integer(*updated_at));
                v.push(SqlValue::Text(id.clone()));
            },
            Statement::DeleteProvider { id } => v.push(SqlValue::Text(id.clone())),
            Statement::InsertModel(m) => {
                v.push(SqlValue::Text(m.id.clone()));
                v.push(SqlValue::Text(m.provider_id.clone()));
                v.push(SqlValue::Text(m.name.clone()));
                v.push(SqlValue::Integer(m.created_at));
                v.push(SqlValue::Integer(m.updated_at));
            },
            Statement::DeleteModelsOfProvider { provider_id } => v.push(SqlValue::Text(provider_id.clone())),
            Statement::DeleteModel { id } => v.push(SqlValue::Text(id.clone())),
            Statement::DetachModel { model_id } => v.push(SqlValue::Text(model_id.clone())),
            Statement::InsertSession(s) => {
                v.push(SqlValue::Text(s.id.clone()));
                v.push(SqlValue::Text(s.name.clone()));
                v.push(opt_value(&s.model_id));
                v.push(opt_value(&s.system_prompt));
                v.push(SqlValue::Integer(s.created_at));
                v.push(SqlValue::Integer(s.updated_at));
            },
            Statement::UpdateSession { id, name, model_id, system_prompt, updated_at } => {
                v.push(SqlValue::Text(name.clone()));
                v.push(opt_value(model_id));
                v.push(opt_value(system_prompt));
                v.push(SqlValue::Integer(*updated_at));
                v.push(SqlValue::Text(id.clone()));
            },
            Statement::TouchSession { id, updated_at } => {
                v.push(SqlValue::Integer(*updated_at));
                v.push(SqlValue::Text(id.clone()));
            },
            Statement::DeleteSession { id } => v.push(SqlValue::Text(id.clone())),
            Statement::InsertMessage(m) => {
                v.push(SqlValue::Text(m.id.clone()));
                v.push(SqlValue::Text(m.session_id.clone()));
                v.push(SqlValue::Text(m.role.clone()));
                v.push(SqlValue::Text(m.content.clone()));
                v.push(opt_value(&m.reasoning));
                v.push(SqlValue::Integer(m.timestamp));
            },
            Statement::DeleteMessagesOfSession { session_id } => v.push(SqlValue::Text(session_id.clone())),
            Statement::InsertAssistant(a) => {
                v.push(SqlValue::Text(a.id.clone()));
                v.push(SqlValue::Text(a.name.clone()));
                v.push(SqlValue::Text(a.description.clone()));
                v.push(SqlValue::Text(a.system_prompt.clone()));
                v.push(SqlValue::Integer(a.created_at));
                v.push(SqlValue::Integer(a.updated_at));
            },
            Statement::UpdateAssistant { id, name, description, system_prompt, updated_at } => {
                v.push(SqlValue::Text(name.clone()));
                v.push(SqlValue::Text(description.clone()));
                v.push(SqlValue::Text(system_prompt.clone()));
                v.push(SqlValue::Integer(*updated_at));
                v.push(SqlValue::Text(id.clone()));
            },
            Statement::DeleteAssistant { id } => v.push(SqlValue::Text(id.clone())),
            Statement::PutSetting { key, value } => {
                v.push(SqlValue::Text(key.clone()));
                v.push(SqlValue::Text(value.clone()));
            },
        }
        assert(v@ =~= self.spec_params());
        v
    }
}

/// One read of the store. Each selects the columns of its row type in the
/// order of the type's fields.
#[derive(Debug, Clone)]
pub enum Query {
    AllProviders,
    ProviderById { id: String },
    ModelsByProvider { provider_id: String },
    ModelById { id: String },
    /// Most recently updated first.
    AllSessions,
    SessionById { id: String },
    /// Oldest first.
    MessagesBySession { session_id: String },
    /// By name.
    AllAssistants,
    AssistantById { id: String },
    /// The value column only.
    Setting { key: String },
}

impl Query {
    pub open spec fn spec_params(self) -> Seq<SqlValue> {
        match self {
            Query::ProviderById { id } => seq![SqlValue::Text(id)],
            Query::ModelsByProvider { provider_id } => seq![SqlValue::Text(provider_id)],
            Query::ModelById { id } => seq![SqlValue::Text(id)],
            Query::SessionById { id } => seq![SqlValue::Text(id)],
            Query::MessagesBySession { session_id } => seq![SqlValue::Text(session_id)],
            Query::AssistantById { id } => seq![SqlValue::Text(id)],
            Query::Setting { key } => seq![SqlValue::Text(key)],
            _ => seq![],
        }
    }

    /// The SQL text of the query.
    pub open spec fn sql_text(self) -> Seq<char> {
        match self {
            Query::AllProviders => "SELECT id, name, api_url, api_key_name, api_key, created_at, updated_at FROM ai_providers"@,
            Query::ProviderById { .. } => "SELECT id, name, api_url, api_key_name, api_key, created_at, updated_at FROM ai_providers WHERE id = ?"@,
            Query::ModelsByProvider { .. } => "SELECT id, provider_id, name, created_at, updated_at FROM ai_models WHERE provider_id = ?"@,
            Query::ModelById { .. } => "SELECT id, provider_id, name, created_at, updated_at FROM ai_models WHERE id = ?"@,
            Query::AllSessions => "SELECT id, name, model_id, system_prompt, created_at, updated_at FROM chat_sessions ORDER BY updated_at DESC"@,
            Query::SessionById { .. } => "SELECT id, name, model_id, system_prompt, created_at, updated_at FROM chat_sessions WHERE id = ?"@,
            Query::MessagesBySession { .. } => "SELECT id, session_id, role, content, reasoning, timestamp FROM chat_messages WHERE session_id = ? ORDER BY timestamp ASC"@,
            Query::AllAssistants => "SELECT id, name, description, system_prompt, created_at, updated_at FROM assistants ORDER BY name ASC"@,
            Query::AssistantById { .. } => "SELECT id, name, description, system_prompt, created_at, updated_at FROM assistants WHERE id = ?"@,
            Query::Setting { .. } => "SELECT value FROM app_settings WHERE key = ?"@,
        }
    }

    /// The SQL text, with one `?` per parameter.
    pub fn sql(&self) -> (r: &'static str)
        ensures
            r@ == self.sql_text(),
    {
        match self {
            Query::AllProviders => "SELECT id, name, api_url, api_key_name, api_key, created_at, updated_at FROM ai_providers",
            Query::ProviderById { .. } => "SELECT id, name, api_url, api_key_name, api_key, created_at, updated_at FROM ai_providers WHERE id = ?",
            Query::ModelsByProvider { .. } => "SELECT id, provider_id, name, created_at, updated_at FROM ai_models WHERE provider_id = ?",
            Query::ModelById { .. } => "SELECT id, provider_id, name, created_at, updated_at FROM ai_models WHERE id = ?",
            Query::AllSessions => "SELECT id, name, model_id, system_prompt, created_at, updated_at FROM chat_sessions ORDER BY updated_at DESC",
            Query::SessionById { .. } => "SELECT id, name, model_id, system_prompt, created_at, updated_at FROM chat_sessions WHERE id = ?",
            Query::MessagesBySession { .. } => "SELECT id, session_id, role, content, reasoning, timestamp FROM chat_messages WHERE session_id = ? ORDER BY timestamp ASC",
            Query::AllAssistants => "SELECT id, name, description, system_prompt, created_at, updated_at FROM assistants ORDER BY name ASC",
            Query::AssistantById { .. } => "SELECT id, name, description, system_prompt, created_at, updated_at FROM assistants WHERE id = ?",
            Query::Setting { .. } => "SELECT value FROM app_settings WHERE key = ?",
        }
    }

    /// The values to bind, in the order of the `?` in [`Query::sql`].
    pub fn params(&self) -> (r: Vec<SqlValue>)
        ensures
            r@ == self.spec_params(),
    {
        let mut v: Vec<SqlValue> = Vec::new();
        match self {
            Query::ProviderById { id } => v.push(SqlValue::Text(id.clone())),
            Query::ModelsByProvider { provider_id } => v.push(SqlValue::Text(provider_id.clone())),
            Query::ModelById { id } => v.push(SqlValue::Text(id.clone())),
            Query::SessionById { id } => v.push(SqlValue::Text(id.clone())),
            Query::MessagesBySession { session_id } => v.push(SqlValue::Text(session_id.clone())),
            Query::AssistantById { id } => v.push(SqlValue::Text(id.clone())),
            Query::Setting { key } => v.push(SqlValue::Text(key.clone())),
            _ => {},
        }
        assert(v@ =~= self.spec_params());
        v
    }
}

/// The statements that delete a provider, given the models it owns: clear
/// every session's reference to each of those models, delete the models,
/// then the provider.
pub open spec fn is_delete_provider_plan(plan: Seq<Statement>, id: Seq<char>, models: Seq<AIModel>) -> bool {
    &&& plan.len() == models.len() + 2
    &&& forall|i: int|
        0 <= i < models.len() ==> (#[trigger] plan[i] matches Statement::DetachModel { model_id } && model_id@
            == models[i].id@)
    &&& plan[models.len() as int] matches Statement::DeleteModelsOfProvider { provider_id } && provider_id@ == id
    &&& plan[models.len() + 1int] matches Statement::DeleteProvider { id: x } && x@ == id
}

/// The statements that delete a model: clear the sessions' references to
/// it, then delete it.
pub open spec fn is_delete_model_plan(plan: Seq<Statement>, id: Seq<char>) -> bool {
    &&& plan.len() == 2
    &&& plan[0] matches Statement::DetachModel { model_id } && model_id@ == id
    &&& plan[1] matches Statement::DeleteModel { id: x } && x@ == id
}

/// The statements that delete a session: its messages, then the session.
pub open spec fn is_delete_session_plan(plan: Seq<Statement>, id: Seq<char>) -> bool {
    &&& plan.len() == 2
    &&& plan[0] matches Statement::DeleteMessagesOfSession { session_id } && session_id@ == id
    &&& plan[1] matches Statement::DeleteSession { id: x } && x@ == id
}

pub open spec fn is_delete_assistant_plan(plan: Seq<Statement>, id: Seq<char>) -> bool {
    &&& plan.len() == 1
    &&& plan[0] matches Statement::DeleteAssistant { id: x } && x@ == id
}

/// A provider row made from the given fields, stamped once.
pub open spec fn is_new_provider(
    p: AIProvider,
    name: Seq<char>,
    api_url: Seq<char>,
    api_key_name: Seq<char>,
    api_key: Seq<char>,
) -> bool {
    &&& p.name@ == name
    &&& p.api_url@ == api_url
    &&& p.api_key_name@ == api_key_name
    &&& p.api_key matches Some(k) && k@ == api_key
    &&& p.created_at == p.updated_at
    &&& p.created_at >= 0
}

/// The transaction that deletes provider `id`, from the models that it
/// owns (the rows of [`Query::ModelsByProvider`] for `id`).
pub fn delete_provider(id: &str, models: &Vec<AIModel>) -> (r: Vec<Statement>)
    ensures
        is_delete_provider_plan(r@, id@, models@),
{
    let mut plan: Vec<Statement> = Vec::new();
    let mut i: usize = 0;
    while i < models.len()
        invariant
            i <= models@.len(),
            plan@.len() == i,
            forall|k: int|
                0 <= k < i ==> (#[trigger] plan@[k] matches Statement::DetachModel { model_id }
                    && model_id@ == models@[k].id@),
        decreases models@.len() - i,
    {
        plan.push(Statement::DetachModel { model_id: models[i].id.clone() });
        i = i + 1;
    }
    plan.push(Statement::DeleteModelsOfProvider { provider_id: text_of(id) });
    plan.push(Statement::DeleteProvider { id: text_of(id) });
    plan
}

/// The transaction that deletes model `id`.
pub fn delete_model(id: &str) -> (r: Vec<Statement>)
    ensures
        is_delete_model_plan(r@, id@),
{
    let mut plan: Vec<Statement> = Vec::new();
    plan.push(Statement::DetachModel { model_id: text_of(id) });
    plan.push(Statement::DeleteModel { id: text_of(id) });
    plan
}

/// The transaction that deletes session `id` with its messages.
pub fn delete_chat_session(id: &str) -> (r: Vec<Statement>)
    ensures
        is_delete_session_plan(r@, id@),
{
    let mut plan: Vec<Statement> = Vec::new();
    plan.push(Statement::DeleteMessagesOfSession { session_id: text_of(id) });
    plan.push(Statement::DeleteSession { id: text_of(id) });
    plan
}

/// The transaction that deletes assistant `id`.
pub fn delete_assistant(id: &str) -> (r: Vec<Statement>)
    ensures
        is_delete_assistant_plan(r@, id@),
{
    let mut plan: Vec<Statement> = Vec::new();
    plan.push(Statement::DeleteAssistant { id: text_of(id) });
    plan
}

/// The insertion of a provider under the given id, stamped now.
pub fn add_provider_with_id(id: &str, name: &str, api_url: &str, api_key_name: &str, api_key: &str) -> (r: Statement)
    ensures
        r matches Statement::InsertProvider(p) && p.id@ == id@ && is_new_provider(
            p,
            name@,
            api_url@,
            api_key_name@,
            api_key@,
        ),
{
    let timestamp = get_current_timestamp();
    Statement::InsertProvider(
        AIProvider {
            id: text_of(id),
            name: text_of(name),
            api_url: text_of(api_url),
            api_key_name: text_of(api_key_name),
            api_key: Some(text_of(api_key)),
            created_at: timestamp,
            updated_at: timestamp,
        },
    )
}

/// The insertion of a provider under a fresh id; returns the id with it.
pub fn add_provider(name: &str, api_url: &str, api_key_name: &str, api_key: &str) -> (r: (String, Statement))
    ensures
        r.1 matches Statement::InsertProvider(p) && p.id@ == r.0@ && is_new_provider(
            p,
            name@,
            api_url@,
            api_key_name@,
            api_key@,
        ),
{
    let id = new_uuid();
    let st = add_provider_with_id(id.as_str(), name, api_url, api_key_name, api_key);
    (id, st)
}

/// The update of provider `id`, stamped now; the cached key changes only
/// where one is given.
pub fn update_provider(id: &str, name: &str, api_url: &str, api_key_name: &str, api_key: Option<&str>) -> (r: Statement)
    ensures
        r matches Statement::UpdateProvider { id: i, name: n, api_url: u, api_key_name: kn, api_key: k, updated_at } && i@
            == id@ && n@ == name@ && u@ == api_url@ && kn@ == api_key_name@ && (k is Some <==> api_key is Some) && (
        k matches Some(kk) ==> kk@ == api_key->0@) && updated_at >= 0,
{
    Statement::UpdateProvider {
        id: text_of(id),
        name: text_of(name),
        api_url: text_of(api_url),
        api_key_name: text_of(api_key_name),
        api_key: opt_string(api_key),
        updated_at: get_current_timestamp(),
    }
}

/// The insertion of a model of `provider` under a fresh id; returns the id
/// with it. `provider` is the row that [`Query::ProviderById`] reads for
/// the model's provider: "Provider not found" where there is none.
pub fn add_model(provider: Option<AIProvider>, name: &str) -> (r: Result<(String, Statement), String>)
    ensures
        provider is None ==> (r matches Err(e) && e@ == "Provider not found"@),
        provider matches Some(p) ==> (r matches Ok(created) && created.1 matches Statement::InsertModel(m)
            && m.id@ == created.0@ && m.provider_id@ == p.id@ && m.name@ == name@ && m.created_at
            == m.updated_at),
{
    let p = match provider {
        Some(p) => p,
        None => return Err(String::from_str("Provider not found")),
    };
    let id = new_uuid();
    let timestamp = get_current_timestamp();
    let m = AIModel { id: id.clone(), provider_id: p.id, name: text_of(name), created_at: timestamp, updated_at: timestamp };
    Ok((id, Statement::InsertModel(m)))
}

/// Whether `model`, the row that [`Query::ModelById`] reads for `model_id`,
/// is that model.
pub open spec fn names_model(model: Option<AIModel>, model_id: Seq<char>) -> bool {
    model matches Some(m) && m.id@ == model_id
}

/// The model reference to store: none where none is asked for, and the
/// model's id where `model` is the model asked for; "Model with ID ... not
/// found" otherwise.
fn model_reference(model_id: Option<&str>, model: &Option<AIModel>) -> (r: Result<Option<String>, String>)
    ensures
        model_id is None ==> r == Ok::<Option<String>, String>(None),
        model_id matches Some(x) ==> (if names_model(*model, x@) {
            r matches Ok(Some(y)) && y@ == x@
        } else {
            r matches Err(e) && e@ == "Model with ID "@ + x@ + " not found"@
        }),
{
    match model_id {
        None => Ok(None),
        Some(x) => {
            match model {
                Some(m) => if equals(m.id.as_str(), x) {
                    Ok(Some(text_of(x)))
                } else {
                    Err(String::from_str("Model with ID ").concat(x).concat(" not found"))
                },
                None => Err(String::from_str("Model with ID ").concat(x).concat(" not found")),
            }
        },
    }
}

/// The insertion of a session under a fresh id; returns the id with it.
/// Where a model is named, `model` is the row that [`Query::ModelById`]
/// reads for it: "Model with ID ... not found" where that is not the model.
pub fn create_chat_session(name: &str, model_id: Option<&str>, model: Option<AIModel>, system_prompt: Option<&str>) -> (r: Result<(String, Statement), String>)
    ensures
        model_id matches Some(x) ==> (!names_model(model, x@) ==> (r matches Err(e) && e@ == "Model with ID "@
            + x@ + " not found"@)),
        (model_id is None || names_model(model, model_id->0@)) ==> (r matches Ok(created) && created.1 matches Statement::InsertSession(
            s,
        ) && s.id@ == created.0@ && s.name@ == name@ && (s.model_id is Some <==> model_id is Some) && (
        s.model_id matches Some(m) ==> m@ == model_id->0@) && (s.system_prompt is Some <==> system_prompt is Some)
            && (s.system_prompt matches Some(p) ==> p@ == system_prompt->0@) && s.created_at == s.updated_at),
{
    let reference = model_reference(model_id, &model)?;
    let id = new_uuid();
    let timestamp = get_current_timestamp();
    let s = ChatSession {
        id: id.clone(),
        name: text_of(name),
        model_id: reference,
        system_prompt: opt_string(system_prompt),
        created_at: timestamp,
        updated_at: timestamp,
    };
    Ok((id, Statement::InsertSession(s)))
}

/// The update of a stored session, stamped now. `current` is the row that
/// [`Query::SessionById`] reads: "Session not found" where there is none.
/// Where a model is named, `model` is the row that [`Query::ModelById`]
/// reads for it: "Model with ID ... not found" where that is not the model.
pub fn update_chat_session(
    current: Option<ChatSession>,
    name: &str,
    model_id: Option<&str>,
    model: Option<AIModel>,
    system_prompt: Option<&str>,
) -> (r: Result<Statement, String>)
    ensures
        current is None ==> (r matches Err(e) && e@ == "Session not found"@),
        current is Some ==> (model_id matches Some(x) ==> (!names_model(model, x@) ==> (r matches Err(e) && e@
            == "Model with ID "@ + x@ + " not found"@))),
        current matches Some(c) ==> ((model_id is None || names_model(model, model_id->0@)) ==> (r matches Ok(
            Statement::UpdateSession { id: i, name: n, model_id: m, system_prompt: p, updated_at },
        ) && i@ == c.id@ && n@ == name@ && (m is Some <==> model_id is Some) && (m matches Some(mm) ==> mm@
            == model_id->0@) && (p is Some <==> system_prompt is Some) && (p matches Some(pp) ==> pp@
            == system_prompt->0@) && updated_at >= 0)),
{
    let c = match current {
        Some(c) => c,
        None => return Err(String::from_str("Session not found")),
    };
    let reference = model_reference(model_id, &model)?;
    Ok(
        Statement::UpdateSession {
            id: c.id,
            name: text_of(name),
            model_id: reference,
            system_prompt: opt_string(system_prompt),
            updated_at: get_current_timestamp(),
        },
    )
}

/// The roles that a message may have.
pub open spec fn is_role(r: Seq<char>) -> bool {
    r == "user"@ || r == "assistant"@ || r == "system"@
}

/// The statements that add a message to session `session_id`: insert it,
/// then set the session's update time to the message's time.
pub open spec fn is_add_message_plan(
    plan: Seq<Statement>,
    session_id: Seq<char>,
    role: Seq<char>,
    content: Seq<char>,
) -> bool {
    &&& plan.len() == 2
    &&& plan[0] matches Statement::InsertMessage(m) && m.session_id@ == session_id && m.role@ == role
        && m.content@ == content && (plan[1] matches Statement::TouchSession { id, updated_at } && id@
        == session_id && updated_at == m.timestamp)
}

/// The insertion of a message under a fresh id, followed by the update of
/// its session's update time to the message's time; returns the id with
/// them. `session` is the row that [`Query::SessionById`] reads: "Session
/// not found" where there is none, and "Invalid message role" for a role
/// other than `user`, `assistant` and `system`.
pub fn add_message(session: Option<ChatSession>, role: &str, content: &str, reasoning: Option<&str>) -> (r: Result<(String, Vec<Statement>), String>)
    ensures
        session is None ==> (r matches Err(e) && e@ == "Session not found"@),
        session is Some && !is_role(role@) ==> (r matches Err(e) && e@ == "Invalid message role"@),
        session matches Some(s) ==> (is_role(role@) ==> (r matches Ok(created) && (is_add_message_plan(
            created.1@,
            s.id@,
            role@,
            content@,
        ) && (created.1@[0] matches Statement::InsertMessage(m) && m.id@ == created.0@ && (m.reasoning is Some
            <==> reasoning is Some) && (m.reasoning matches Some(x) ==> x@ == reasoning->0@))))),
{
    let s = match session {
        Some(s) => s,
        None => return Err(String::from_str("Session not found")),
    };
    if !(equals(role, "user") || equals(role, "assistant") || equals(role, "system")) {
        return Err(String::from_str("Invalid message role"));
    }
    let id = new_uuid();
    let timestamp = get_current_timestamp();
    let m = ChatMessage {
        id: id.clone(),
        session_id: s.id.clone(),
        role: text_of(role),
        content: text_of(content),
        reasoning: opt_string(reasoning),
        timestamp,
    };
    let mut plan: Vec<Statement> = Vec::new();
    plan.push(Statement::InsertMessage(m));
    plan.push(Statement::TouchSession { id: s.id, updated_at: timestamp });
    Ok((id, plan))
}

/// The insertion of an assistant under a fresh id; returns the id with it.
pub fn create_assistant(name: &str, description: &str, system_prompt: &str) -> (r: (String, Statement))
    ensures
        r.1 matches Statement::InsertAssistant(a) && a.id@ == r.0@ && a.name@ == name@ && a.description@
            == description@ && a.system_prompt@ == system_prompt@ && a.created_at == a.updated_at,
{
    let id = new_uuid();
    let timestamp = get_current_timestamp();
    let a = Assistant {
        id: id.clone(),
        name: text_of(name),
        description: text_of(description),
        system_prompt: text_of(system_prompt),
        created_at: timestamp,
        updated_at: timestamp,
    };
    (id, Statement::InsertAssistant(a))
}

/// The update of a stored assistant, stamped now. `current` is the row that
/// [`Query::AssistantById`] reads: "Assistant not found" where there is
/// none.
pub fn update_assistant(current: Option<Assistant>, name: &str, description: &str, system_prompt: &str) -> (r: Result<Statement, String>)
    ensures
        current is None ==> (r matches Err(e) && e@ == "Assistant not found"@),
        current matches Some(c) ==> (r matches Ok(
            Statement::UpdateAssistant { id: i, name: n, description: d, system_prompt: p, updated_at },
        ) && i@ == c.id@ && n@ == name@ && d@ == description@ && p@ == system_prompt@ && updated_at >= 0),
{
    let c = match current {
        Some(c) => c,
        None => return Err(String::from_str("Assistant not found")),
    };
    Ok(
        Statement::UpdateAssistant {
            id: c.id,
            name: text_of(name),
            description: text_of(description),
            system_prompt: text_of(system_prompt),
            updated_at: get_current_timestamp(),
        },
    )
}

/// The upsert of a setting.
pub fn set_setting(key: &str, value: &str) -> (r: Statement)
    ensures
        r matches Statement::PutSetting { key: k, value: v } && k@ == key@ && v@ == value@,
{
    Statement::PutSetting { key: text_of(key), value: text_of(value) }
}

} // verus!

use aichat_pro::db::{
    add_message, add_model, add_provider, add_provider_with_id, create_assistant, create_chat_session, delete_assistant,
    delete_chat_session, delete_model, delete_provider, set_setting, update_assistant, update_chat_session,
    update_provider, AIModel, AIProvider, Assistant, ChatSession, Query, SqlValue, Statement,
};
use aichat_pro::schema::{needs_api_key_column, SCHEMA_SQL};
use aichat_pro::time::{get_current_timestamp, timestamp_of};

fn model(id: &str, provider_id: &str) -> AIModel {
    AIModel { id: id.to_string(), provider_id: provider_id.to_string(), name: id.to_string(), created_at: 1, updated_at: 1 }
}

fn provider(id: &str) -> AIProvider {
    AIProvider {
        id: id.to_string(),
        name: id.to_string(),
        api_url: "u".to_string(),
        api_key_name: "k".to_string(),
        api_key: None,
        created_at: 1,
        updated_at: 1,
    }
}

fn session(id: &str) -> ChatSession {
    ChatSession { id: id.to_string(), name: "s".to_string(), model_id: None, system_prompt: None, created_at: 1, updated_at: 1 }
}

fn texts(values: &[SqlValue]) -> Vec<String> {
    values
        .iter()
        .map(|v| match v {
            SqlValue::Text(s) => s.clone(),
            SqlValue::Integer(i) => format!("#{}", i),
            SqlValue::Null => "NULL".to_string(),
        })
        .collect()
}

#[test]
fn delete_provider_with_two_models() {
    let models = vec![model("m1", "p"), model("m2", "p")];
    let plan = delete_provider("p", &models);
    assert_eq!(plan.len(), 4);
    for (i, id) in ["m1", "m2"].iter().enumerate() {
        match &plan[i] {
            Statement::DetachModel { model_id } => assert_eq!(model_id, id),
            other => panic!("unexpected {:?}", other),
        }
        assert_eq!(plan[i].sql(), "UPDATE chat_sessions SET model_id = NULL WHERE model_id = ?");
        assert_eq!(texts(&plan[i].params()), vec![id.to_string()]);
    }
    assert_eq!(plan[2].sql(), "DELETE FROM ai_models WHERE provider_id = ?");
    assert_eq!(texts(&plan[2].params()), vec!["p"]);
    assert_eq!(plan[3].sql(), "DELETE FROM ai_providers WHERE id = ?");
    assert_eq!(texts(&plan[3].params()), vec!["p"]);
}

#[test]
fn delete_provider_without_models() {
    let plan = delete_provider("nobody", &vec![]);
    assert_eq!(plan.len(), 2);
    assert!(matches!(&plan[0], Statement::DeleteModelsOfProvider { provider_id } if provider_id == "nobody"));
    assert!(matches!(&plan[1], Statement::DeleteProvider { id } if id == "nobody"));
}

#[test]
fn delete_session_removes_messages_then_session() {
    let plan = delete_chat_session("s1");
    assert_eq!(plan.len(), 2);
    assert_eq!(plan[0].sql(), "DELETE FROM chat_messages WHERE session_id = ?");
    assert_eq!(plan[1].sql(), "DELETE FROM chat_sessions WHERE id = ?");
    assert_eq!(texts(&plan[0].params()), vec!["s1"]);
    assert_eq!(texts(&plan[1].params()), vec!["s1"]);
}

#[test]
fn delete_model_detaches_then_deletes() {
    let plan = delete_model("m9");
    assert_eq!(plan.len(), 2);
    assert!(matches!(&plan[0], Statement::DetachModel { model_id } if model_id == "m9"));
    assert!(matches!(&plan[1], Statement::DeleteModel { id } if id == "m9"));
}

#[test]
fn delete_of_missing_ids_plans_plain_deletes() {
    assert_eq!(delete_assistant("missing").len(), 1);
    assert_eq!(delete_assistant("missing")[0].sql(), "DELETE FROM assistants WHERE id = ?");
    assert_eq!(delete_chat_session("missing").len(), 2);
    assert_eq!(delete_model("missing").len(), 2);
    assert_eq!(delete_provider("missing", &vec![]).len(), 2);
}

#[test]
fn provider_created_with_given_fields() {
    let st = add_provider_with_id("openai-1", "OpenAI", "https://api.openai.com", "OpenAI", "sk-x");
    match &st {
        Statement::InsertProvider(p) => {
            assert_eq!(p.id, "openai-1");
            assert_eq!(p.name, "OpenAI");
            assert_eq!(p.api_url, "https://api.openai.com");
            assert_eq!(p.api_key_name, "OpenAI");
            assert_eq!(p.api_key.as_deref(), Some("sk-x"));
            assert_eq!(p.created_at, p.updated_at);
            let ts = p.created_at;
            assert_eq!(
                texts(&st.params()),
                vec!["openai-1", "OpenAI", "https://api.openai.com", "OpenAI", "sk-x", &format!("#{}", ts), &format!("#{}", ts)]
            );
        }
        other => panic!("unexpected {:?}", other),
    }
    assert!(st.sql().starts_with("INSERT INTO ai_providers (id, name, api_url, api_key_name, api_key, created_at, updated_at)"));
}

#[test]
fn fresh_ids_are_uuids_and_differ() {
    let (a, sa) = add_provider("A", "u", "A", "k");
    let (b, _) = add_provider("B", "u", "B", "k");
    assert_eq!(a.len(), 36);
    assert_eq!(a.matches('-').count(), 4);
    assert_ne!(a, b);
    assert!(matches!(&sa, Statement::InsertProvider(p) if p.id == a));
}

#[test]
fn update_provider_keeps_key_when_none_given() {
    let with_key = update_provider("p", "N", "U", "KN", Some("new"));
    assert_eq!(
        with_key.sql(),
        "UPDATE ai_providers SET name = ?, api_url = ?, api_key_name = ?, api_key = ?, updated_at = ? WHERE id = ?"
    );
    let ps = texts(&with_key.params());
    assert_eq!(ps.len(), 6);
    assert_eq!(&ps[..4], &["N", "U", "KN", "new"]);
    assert_eq!(ps[5], "p");
    let without = update_provider("p", "N", "U", "KN", None);
    assert_eq!(without.sql(), "UPDATE ai_providers SET name = ?, api_url = ?, api_key_name = ?, updated_at = ? WHERE id = ?");
    let ps = texts(&without.params());
    assert_eq!(ps.len(), 5);
    assert_eq!(&ps[..3], &["N", "U", "KN"]);
    assert_eq!(ps[4], "p");
}

#[test]
fn add_message_touches_its_session() {
    let (id, plan) = add_message(Some(session("s1")), "user", "hello", None).unwrap();
    assert_eq!(plan.len(), 2);
    let ts = match &plan[0] {
        Statement::InsertMessage(m) => {
            assert_eq!(m.id, id);
            assert_eq!(m.session_id, "s1");
            assert_eq!(m.role, "user");
            assert_eq!(m.content, "hello");
            assert!(m.reasoning.is_none());
            m.timestamp
        }
        other => panic!("unexpected {:?}", other),
    };
    match &plan[1] {
        Statement::TouchSession { id, updated_at } => {
            assert_eq!(id, "s1");
            assert_eq!(*updated_at, ts);
        }
        other => panic!("unexpected {:?}", other),
    }
    assert!(matches!(plan[0].params()[4], SqlValue::Null));
}

#[test]
fn sessions_models_assistants_settings() {
    let (mid, m) = add_model(Some(provider("p")), "gpt-4o").unwrap();
    assert!(matches!(&m, Statement::InsertModel(x) if x.id == mid && x.provider_id == "p" && x.name == "gpt-4o"));
    let stored = model(&mid, "p");
    let (sid, s) = create_chat_session("chat", Some(&mid), Some(stored), None).unwrap();
    assert!(matches!(&s, Statement::InsertSession(x) if x.id == sid && x.model_id.as_deref() == Some(mid.as_str()) && x.system_prompt.is_none()));
    let u = update_chat_session(Some(session(&sid)), "renamed", None, None, Some("be nice")).unwrap();
    assert_eq!(texts(&u.params())[..3], ["renamed".to_string(), "NULL".to_string(), "be nice".to_string()]);
    let (aid, a) = create_assistant("Tutor", "explains", "You teach.");
    assert!(matches!(&a, Statement::InsertAssistant(x) if x.id == aid && x.description == "explains"));
    let current = Assistant {
        id: aid.clone(),
        name: "Tutor".to_string(),
        description: "explains".to_string(),
        system_prompt: "You teach.".to_string(),
        created_at: 1,
        updated_at: 1,
    };
    let ua = update_assistant(Some(current), "T", "d", "p").unwrap();
    assert_eq!(texts(&ua.params())[4], aid);
    let st = set_setting("theme", "dark");
    assert_eq!(st.sql(), "INSERT OR REPLACE INTO app_settings (key, value) VALUES (?, ?)");
    assert_eq!(texts(&st.params()), vec!["theme", "dark"]);
}

#[test]
fn model_needs_its_provider() {
    assert_eq!(add_model(None, "gpt-4o").unwrap_err(), "Provider not found");
}

#[test]
fn message_needs_its_session_and_a_known_role() {
    assert_eq!(add_message(None, "user", "hi", None).unwrap_err(), "Session not found");
    assert_eq!(add_message(Some(session("s")), "robot", "hi", None).unwrap_err(), "Invalid message role");
    assert!(add_message(Some(session("s")), "system", "hi", None).is_ok());
}

#[test]
fn session_needs_the_model_it_names() {
    assert_eq!(create_chat_session("c", Some("m9"), None, None).unwrap_err(), "Model with ID m9 not found");
    assert_eq!(
        create_chat_session("c", Some("m9"), Some(model("m8", "p")), None).unwrap_err(),
        "Model with ID m9 not found"
    );
    assert!(create_chat_session("c", None, None, None).is_ok());
    assert_eq!(update_chat_session(None, "n", None, None, None).unwrap_err(), "Session not found");
    assert_eq!(
        update_chat_session(Some(session("s")), "n", Some("m9"), None, None).unwrap_err(),
        "Model with ID m9 not found"
    );
}

#[test]
fn update_of_missing_assistant_is_not_found() {
    assert_eq!(update_assistant(None, "n", "d", "p").unwrap_err(), "Assistant not found");
}

#[test]
fn queries_bind_their_keys() {
    let q = Query::ProviderById { id: "openai".to_string() };
    assert!(q.sql().ends_with("FROM ai_providers WHERE id = ?"));
    assert_eq!(texts(&q.params()), vec!["openai"]);
    assert!(Query::AllSessions.sql().ends_with("ORDER BY updated_at DESC"));
    assert!(Query::AllProviders.params().is_empty());
    assert!(Query::ModelById { id: "m".to_string() }.sql().ends_with("FROM ai_models WHERE id = ?"));
    assert!(Query::MessagesBySession { session_id: "s".to_string() }.sql().ends_with("ORDER BY timestamp ASC"));
}

#[test]
fn schema_and_migration() {
    assert!(SCHEMA_SQL.contains("CREATE TABLE IF NOT EXISTS chat_messages"));
    assert!(needs_api_key_column(0));
    assert!(!needs_api_key_column(1));
}

#[test]
fn clock_reads_seconds_since_epoch() {
    let now = get_current_timestamp();
    assert!(now > 1_600_000_000);
}

#[test]
fn timestamps_of_clock_readings() {
    assert_eq!(timestamp_of(None), 0);
    assert_eq!(timestamp_of(Some(1_700_000_000)), 1_700_000_000);
    assert_eq!(timestamp_of(Some(u64::MAX)), i64::MAX);
    assert_eq!(timestamp_of(Some(i64::MAX as u64)), i64::MAX);
}

//! What the store holds, as sequences of rows, and what each statement does
//! to it. The laws of the store's operations are stated and proved here.

use vstd::prelude::*;
use crate::db::{
    AIModel, AIProvider, Assistant, ChatMessage, ChatSession, Statement, is_add_message_plan, is_role,
    is_delete_assistant_plan, is_delete_model_plan, is_delete_provider_plan, is_delete_session_plan, is_new_provider,
};

verus! {

/// The contents of the store, one sequence of rows per table; settings as
/// key and value.
pub ghost struct Tables {
    pub providers: Seq<AIProvider>,
    pub models: Seq<AIModel>,
    pub sessions: Seq<ChatSession>,
    pub messages: Seq<ChatMessage>,
    pub assistants: Seq<Assistant>,
    pub settings: Seq<(Seq<char>, Seq<char>)>,
}

pub open spec fn has_provider(t: Tables, id: Seq<char>) -> bool {
    exists|i: int| 0 <= i < t.providers.len() && (#[trigger] t.providers[i]).id@ == id
}

pub open spec fn has_model(t: Tables, id: Seq<char>) -> bool {
    exists|i: int| 0 <= i < t.models.len() && (#[trigger] t.models[i]).id@ == id
}

pub open spec fn has_session(t: Tables, id: Seq<char>) -> bool {
    exists|i: int| 0 <= i < t.sessions.len() && (#[trigger] t.sessions[i]).id@ == id
}

pub open spec fn has_message(t: Tables, id: Seq<char>) -> bool {
    exists|i: int| 0 <= i < t.messages.len() && (#[trigger] t.messages[i]).id@ == id
}

pub open spec fn has_assistant(t: Tables, id: Seq<char>) -> bool {
    exists|i: int| 0 <= i < t.assistants.len() && (#[trigger] t.assistants[i]).id@ == id
}

/// No reference dangles: every model's provider, every session's model
/// where it has one, and every message's session exist.
pub open spec fn integrity(t: Tables) -> bool {
    &&& forall|i: int| 0 <= i < t.models.len() ==> has_provider(t, (#[trigger] t.models[i]).provider_id@)
    &&& forall|i: int|
        0 <= i < t.sessions.len() ==> ((#[trigger] t.sessions[i]).model_id matches Some(m) ==> has_model(
            t,
            m@,
        ))
    &&& forall|i: int| 0 <= i < t.messages.len() ==> has_session(t, (#[trigger] t.messages[i]).session_id@)
}

/// Whether the engine runs the statement on `t`: an insertion is refused
/// where its id is taken, and a message with a role outside the three.
pub open spec fn accepts(t: Tables, s: Statement) -> bool {
    match s {
        Statement::InsertProvider(p) => !has_provider(t, p.id@),
        Statement::InsertModel(m) => !has_model(t, m.id@),
        Statement::InsertSession(x) => !has_session(t, x.id@),
        Statement::InsertMessage(m) => !has_message(t, m.id@) && is_role(m.role@),
        Statement::InsertAssistant(a) => !has_assistant(t, a.id@),
        _ => true,
    }
}

/// A session with its model reference cleared where it names `model_id`.
pub open spec fn detach(s: ChatSession, model_id: Seq<char>) -> ChatSession {
    if s.model_id matches Some(m) && m@ == model_id {
        ChatSession { model_id: None, ..s }
    } else {
        s
    }
}

/// The store after one accepted statement.
pub open spec fn apply(t: Tables, s: Statement) -> Tables {
    match s {
        Statement::InsertProvider(p) => Tables { providers: t.providers.push(p), ..t },
        Statement::UpdateProvider { id, name, api_url, api_key_name, api_key, updated_at } => Tables {
            providers: t.providers.map_values(
                |p: AIProvider|
                    if p.id@ == id@ {
                        AIProvider {
                            name: name,
                            api_url: api_url,
                            api_key_name: api_key_name,
                            api_key: if api_key is Some {
                                api_key
                            } else {
                                p.api_key
                            },
                            updated_at: updated_at,
                            ..p
                        }
                    } else {
                        p
                    },
            ),
            ..t
        },
        Statement::DeleteProvider { id } => Tables {
            providers: t.providers.filter(|p: AIProvider| p.id@ != id@),
            ..t
        },
        Statement::InsertModel(m) => Tables { models: t.models.push(m), ..t },
        Statement::DeleteModelsOfProvider { provider_id } => Tables {
            models: t.models.filter(|m: AIModel| m.provider_id@ != provider_id@),
            ..t
        },
        Statement::DeleteModel { id } => Tables { models: t.models.filter(|m: AIModel| m.id@ != id@), ..t },
        Statement::DetachModel { model_id } => Tables {
            sessions: t.sessions.map_values(|s: ChatSession| detach(s, model_id@)),
            ..t
        },
        Statement::InsertSession(x) => Tables { sessions: t.sessions.push(x), ..t },
        Statement::UpdateSession { id, name, model_id, system_prompt, updated_at } => Tables {
            sessions: t.sessions.map_values(
                |s: ChatSession|
                    if s.id@ == id@ {
                        ChatSession {
                            name: name,
                            model_id: model_id,
                            system_prompt: system_prompt,
                            updated_at: updated_at,
                            ..s
                        }
                    } else {
                        s
                    },
            ),
            ..t
        },
        Statement::TouchSession { id, updated_at } => Tables {
            sessions: t.sessions.map_values(
                |s: ChatSession|
                    if s.id@ == id@ {
                        ChatSession { updated_at: updated_at, ..s }
                    } else {
                        s
                    },
            ),
            ..t
        },
        Statement::DeleteSession { id } => Tables {
            sessions: t.sessions.filter(|s: ChatSession| s.id@ != id@),
            ..t
        },
        Statement::InsertMessage(m) => Tables { messages: t.messages.push(m), ..t },
        Statement::DeleteMessagesOfSession { session_id } => Tables {
            messages: t.messages.filter(|m: ChatMessage| m.session_id@ != session_id@),
            ..t
        },
        Statement::InsertAssistant(a) => Tables { assistants: t.assistants.push(a), ..t },
        Statement::UpdateAssistant { id, name, description, system_prompt, updated_at } => Tables {
            assistants: t.assistants.map_values(
                |a: Assistant|
                    if a.id@ == id@ {
                        Assistant {
                            name: name,
                            description: description,
                            system_prompt: system_prompt,
                            updated_at: updated_at,
                            ..a
                        }
                    } else {
                        a
                    },
            ),
            ..t
        },
        Statement::DeleteAssistant { id } => Tables {
            assistants: t.assistants.filter(|a: Assistant| a.id@ != id@),
            ..t
        },
        Statement::PutSetting { key, value } => Tables {
            settings: t.settings.filter(|kv: (Seq<char>, Seq<char>)| kv.0 != key@).push((key@, value@)),
            ..t
        },
    }
}

/// The store after the statements, in order.
pub open spec fn run(t: Tables, plan: Seq<Statement>) -> Tables
    decreases plan.len(),
{
    if plan.len() == 0 {
        t
    } else {
        apply(run(t, plan.drop_last()), plan.last())
    }
}

/// Whether every statement is accepted on the store that the ones before it
/// leave.
pub open spec fn all_accepted(t: Tables, plan: Seq<Statement>) -> bool
    decreases plan.len(),
{
    plan.len() == 0 || (all_accepted(t, plan.drop_last()) && accepts(run(t, plan.drop_last()), plan.last()))
}

/// The store after a transaction over the statements: all of them where
/// the engine accepts all, none otherwise.
pub open spec fn transaction(t: Tables, plan: Seq<Statement>) -> Tables {
    if all_accepted(t, plan) {
        run(t, plan)
    } else {
        t
    }
}

/// The models that provider `id` owns, as [`crate::db::Query::ModelsByProvider`] reads them.
pub open spec fn owned_models(t: Tables, id: Seq<char>) -> Seq<AIModel> {
    t.models.filter(owned_by(id))
}

/// Whether a model belongs to provider `id`.
pub open spec fn owned_by(id: Seq<char>) -> spec_fn(AIModel) -> bool {
    |m: AIModel| m.provider_id@ == id
}

/// The messages of session `id`.
pub open spec fn session_messages(t: Tables, id: Seq<char>) -> Seq<ChatMessage> {
    t.messages.filter(in_session(id))
}

/// Whether a message belongs to session `id`.
pub open spec fn in_session(id: Seq<char>) -> spec_fn(ChatMessage) -> bool {
    |m: ChatMessage| m.session_id@ == id
}

/// Whether a provider row has id `id`.
pub open spec fn provider_has_id(id: Seq<char>) -> spec_fn(AIProvider) -> bool {
    |p: AIProvider| p.id@ == id
}

/// The provider row with id `id`, as [`crate::db::Query::ProviderById`] reads it.
pub open spec fn provider_with_id(t: Tables, id: Seq<char>) -> Option<AIProvider> {
    let rows = t.providers.filter(provider_has_id(id));
    if rows.len() > 0 {
        Some(rows[0])
    } else {
        None
    }
}

/// A session with its model reference cleared where it names one of
/// `models`.
pub open spec fn detached_from(s: ChatSession, models: Seq<AIModel>) -> ChatSession {
    if s.model_id matches Some(m) && exists|j: int| 0 <= j < models.len() && (#[trigger] models[j]).id@ == m@ {
        ChatSession { model_id: None, ..s }
    } else {
        s
    }
}

proof fn lemma_filter_keeps_all<A>(s: Seq<A>, p: spec_fn(A) -> bool)
    requires
        forall|i: int| 0 <= i < s.len() ==> p(#[trigger] s[i]),
    ensures
        s.filter(p) == s,
    decreases s.len(),
{
    reveal(Seq::filter);
    if s.len() > 0 {
        lemma_filter_keeps_all(s.drop_last(), p);
        assert(s.drop_last().push(s.last()) =~= s);
    }
}

proof fn lemma_filter_member<A>(s: Seq<A>, p: spec_fn(A) -> bool, i: int)
    requires
        0 <= i < s.filter(p).len(),
    ensures
        exists|j: int| 0 <= j < s.len() && s[j] == s.filter(p)[i] && p(s[j]),
    decreases s.len(),
{
    reveal(Seq::filter);
    let sub = s.drop_last().filter(p);
    if p(s.last()) && i == sub.len() {
        assert(s[s.len() - 1] == s.filter(p)[i]);
    } else {
        lemma_filter_member(s.drop_last(), p, i);
        let j = choose|j: int| 0 <= j < s.drop_last().len() && s.drop_last()[j] == sub[i] && p(s.drop_last()[j]);
        assert(s[j] == s.filter(p)[i]);
    }
}

proof fn lemma_filter_has<A>(s: Seq<A>, p: spec_fn(A) -> bool, j: int)
    requires
        0 <= j < s.len(),
        p(s[j]),
    ensures
        exists|i: int| 0 <= i < s.filter(p).len() && s.filter(p)[i] == s[j],
{
    broadcast use vstd::seq_lib::group_filter_ensures;

    assert(s.filter(p).contains(s[j]));
}

proof fn lemma_filter_partition<A>(s: Seq<A>, p: spec_fn(A) -> bool, q: spec_fn(A) -> bool)
    requires
        forall|x: A| #[trigger] q(x) == !p(x),
    ensures
        s.filter(p).len() + s.filter(q).len() == s.len(),
    decreases s.len(),
{
    reveal(Seq::filter);
    if s.len() > 0 {
        lemma_filter_partition(s.drop_last(), p, q);
    }
}

proof fn lemma_run_two(t: Tables, plan: Seq<Statement>)
    requires
        plan.len() == 2,
    ensures
        run(t, plan) == apply(apply(t, plan[0]), plan[1]),
        all_accepted(t, plan) == (accepts(t, plan[0]) && accepts(apply(t, plan[0]), plan[1])),
{
    let first = plan.drop_last();
    assert(first.drop_last() =~= Seq::<Statement>::empty());
    assert(run(t, first.drop_last()) == t);
    assert(all_accepted(t, first.drop_last()));
    assert(first.last() == plan[0]);
    assert(run(t, first) == apply(t, plan[0]));
    assert(all_accepted(t, first) == accepts(t, plan[0]));
}

proof fn lemma_run_detaches(t: Tables, plan: Seq<Statement>, id: Seq<char>, models: Seq<AIModel>, k: int)
    requires
        is_delete_provider_plan(plan, id, models),
        0 <= k <= models.len(),
    ensures
        run(t, plan.take(k)) == (Tables {
            sessions: t.sessions.map_values(|s: ChatSession| detached_from(s, models.take(k))),
            ..t
        }),
        all_accepted(t, plan.take(k)),
    decreases k,
{
    if k == 0 {
        assert(t.sessions.map_values(|s: ChatSession| detached_from(s, models.take(0))) =~= t.sessions);
        assert(plan.take(0) =~= Seq::<Statement>::empty());
    } else {
        lemma_run_detaches(t, plan, id, models, k - 1);
        assert(plan.take(k).drop_last() =~= plan.take(k - 1));
        assert(plan.take(k).last() == plan[k - 1]);
        let mid = plan[k - 1]->DetachModel_model_id;
        assert(mid@ == models[k - 1].id@);
        let before = t.sessions.map_values(|s: ChatSession| detached_from(s, models.take(k - 1)));
        let after = t.sessions.map_values(|s: ChatSession| detached_from(s, models.take(k)));
        assert forall|i: int| 0 <= i < t.sessions.len() implies #[trigger] detach(before[i], mid@) == after[i] by {
            let s = t.sessions[i];
            if let Some(m) = s.model_id {
                if exists|j: int| 0 <= j < k - 1 && (#[trigger] models.take(k - 1)[j]).id@ == m@ {
                    let j = choose|j: int| 0 <= j < k - 1 && (#[trigger] models.take(k - 1)[j]).id@ == m@;
                    assert(models.take(k)[j] == models.take(k - 1)[j]);
                } else if m@ == mid@ {
                    assert(models.take(k)[k - 1] == models[k - 1]);
                } else {
                    assert forall|j: int| 0 <= j < k implies (#[trigger] models.take(k)[j]).id@ != m@ by {
                        if j < k - 1 {
                            assert(models.take(k)[j] == models.take(k - 1)[j]);
                        }
                    }
                }
            }
        }
        assert(before.map_values(|s: ChatSession| detach(s, mid@)) =~= after);
    }
}

/// Deleting a provider, run as the plan that [`crate::db::delete_provider`]
/// makes from the models that the provider owns: every statement is
/// accepted; the provider and all of its models are gone; every session
/// survives, and one that referred to a deleted model now refers to none;
/// nothing else changes, and no reference dangles where none did before.
pub proof fn lemma_delete_provider_cascades(t: Tables, id: Seq<char>, plan: Seq<Statement>)
    requires
        is_delete_provider_plan(plan, id, owned_models(t, id)),
    ensures
        all_accepted(t, plan),
        transaction(t, plan) == run(t, plan),
        run(t, plan).providers == t.providers.filter(|p: AIProvider| p.id@ != id),
        run(t, plan).models == t.models.filter(|m: AIModel| m.provider_id@ != id),
        run(t, plan).sessions == t.sessions.map_values(|s: ChatSession| detached_from(s, owned_models(t, id))),
        run(t, plan).messages == t.messages,
        run(t, plan).assistants == t.assistants,
        run(t, plan).settings == t.settings,
        !has_provider(run(t, plan), id),
        forall|i: int| 0 <= i < run(t, plan).models.len() ==> (#[trigger] run(t, plan).models[i]).provider_id@ != id,
        integrity(t) ==> integrity(run(t, plan)),
{
    let owned = owned_models(t, id);
    let n = owned.len() as int;
    lemma_run_detaches(t, plan, id, owned, n);
    assert(owned.take(n) =~= owned);
    let mid = run(t, plan.take(n));
    assert(plan.take(n + 1).drop_last() =~= plan.take(n));
    assert(plan.take(n + 1).last() == plan[n]);
    assert(run(t, plan.take(n + 1)) == apply(mid, plan[n]));
    assert(all_accepted(t, plan.take(n + 1)));
    assert(plan.drop_last() =~= plan.take(n + 1));
    assert(plan.last() == plan[n + 1]);
    assert(run(t, plan) == apply(run(t, plan.take(n + 1)), plan[n + 1]));
    let after = run(t, plan);
    let pid = plan[n]->DeleteModelsOfProvider_provider_id;
    let did = plan[n + 1]->DeleteProvider_id;
    assert(after.providers == t.providers.filter(|p: AIProvider| p.id@ != did@));
    assert(after.models == t.models.filter(|m: AIModel| m.provider_id@ != pid@));
    assert((|p: AIProvider| p.id@ != did@) == (|p: AIProvider| p.id@ != id));
    assert((|m: AIModel| m.provider_id@ != pid@) == (|m: AIModel| m.provider_id@ != id));
    if has_provider(after, id) {
        let i = choose|i: int| 0 <= i < after.providers.len() && (#[trigger] after.providers[i]).id@ == id;
        lemma_filter_member(t.providers, |p: AIProvider| p.id@ != id, i);
    }
    assert forall|i: int| 0 <= i < after.models.len() implies (#[trigger] after.models[i]).provider_id@ != id by {
        lemma_filter_member(t.models, |m: AIModel| m.provider_id@ != id, i);
    }
    if integrity(t) {
        assert forall|i: int| 0 <= i < after.models.len() implies has_provider(
            after,
            (#[trigger] after.models[i]).provider_id@,
        ) by {
            lemma_filter_member(t.models, |m: AIModel| m.provider_id@ != id, i);
            let j = choose|j: int|
                0 <= j < t.models.len() && t.models[j] == after.models[i] && t.models[j].provider_id@ != id;
            assert(has_provider(t, t.models[j].provider_id@));
            let k = choose|k: int|
                0 <= k < t.providers.len() && (#[trigger] t.providers[k]).id@ == t.models[j].provider_id@;
            lemma_filter_has(t.providers, |p: AIProvider| p.id@ != id, k);
        }
        assert forall|i: int| 0 <= i < after.sessions.len() implies ((#[trigger] after.sessions[i]).model_id matches Some(
            m,
        ) ==> has_model(after, m@)) by {
            let s = t.sessions[i];
            if let Some(m) = after.sessions[i].model_id {
                assert(s.model_id == after.sessions[i].model_id);
                assert(has_model(t, m@));
                let j = choose|j: int| 0 <= j < t.models.len() && (#[trigger] t.models[j]).id@ == m@;
                if t.models[j].provider_id@ == id {
                    lemma_filter_has(t.models, owned_by(id), j);
                    let o = choose|o: int| 0 <= o < owned.len() && owned[o] == t.models[j];
                    assert((#[trigger] owned[o]).id@ == m@);
                    assert(false);
                }
                lemma_filter_has(t.models, |m: AIModel| m.provider_id@ != id, j);
            }
        }
        assert forall|i: int| 0 <= i < after.messages.len() implies has_session(
            after,
            (#[trigger] after.messages[i]).session_id@,
        ) by {
            let k = choose|k: int|
                0 <= k < t.sessions.len() && (#[trigger] t.sessions[k]).id@ == t.messages[i].session_id@;
            assert(after.sessions[k].id@ == t.sessions[k].id@);
        }
    }
}

/// Deleting a session, run as the plan that
/// [`crate::db::delete_chat_session`] makes: the statements are accepted and
/// commit together; exactly the session's messages are removed, as many as
/// it had, together with the session row; nothing else changes, and no
/// reference dangles where none did before.
pub proof fn lemma_delete_session_cascades(t: Tables, id: Seq<char>, plan: Seq<Statement>)
    requires
        is_delete_session_plan(plan, id),
    ensures
        all_accepted(t, plan),
        transaction(t, plan) == run(t, plan),
        run(t, plan).messages == t.messages.filter(|m: ChatMessage| m.session_id@ != id),
        run(t, plan).messages.len() == t.messages.len() - session_messages(t, id).len(),
        run(t, plan).sessions == t.sessions.filter(|s: ChatSession| s.id@ != id),
        !has_session(run(t, plan), id),
        run(t, plan).providers == t.providers,
        run(t, plan).models == t.models,
        run(t, plan).assistants == t.assistants,
        run(t, plan).settings == t.settings,
        integrity(t) ==> integrity(run(t, plan)),
{
    lemma_run_two(t, plan);
    let sid = plan[0]->session_id;
    let did = plan[1]->DeleteSession_id;
    let after = run(t, plan);
    assert((|m: ChatMessage| m.session_id@ != sid@) == (|m: ChatMessage| m.session_id@ != id));
    assert((|s: ChatSession| s.id@ != did@) == (|s: ChatSession| s.id@ != id));
    assert(after.messages == t.messages.filter(|m: ChatMessage| m.session_id@ != id));
    assert(after.sessions == t.sessions.filter(|s: ChatSession| s.id@ != id));
    lemma_filter_partition(t.messages, in_session(id), |m: ChatMessage| m.session_id@ != id);
    if has_session(after, id) {
        let i = choose|i: int| 0 <= i < after.sessions.len() && (#[trigger] after.sessions[i]).id@ == id;
        lemma_filter_member(t.sessions, |s: ChatSession| s.id@ != id, i);
    }
    if integrity(t) {
        assert forall|i: int| 0 <= i < after.sessions.len() implies ((#[trigger] after.sessions[i]).model_id matches Some(
            m,
        ) ==> has_model(after, m@)) by {
            lemma_filter_member(t.sessions, |s: ChatSession| s.id@ != id, i);
            let j = choose|j: int|
                0 <= j < t.sessions.len() && t.sessions[j] == after.sessions[i] && t.sessions[j].id@ != id;
            if let Some(m) = t.sessions[j].model_id {
                assert(has_model(t, m@));
                let k = choose|k: int| 0 <= k < t.models.len() && (#[trigger] t.models[k]).id@ == m@;
                assert(after.models[k].id@ == m@);
            }
        }
        assert forall|i: int| 0 <= i < after.messages.len() implies has_session(
            after,
            (#[trigger] after.messages[i]).session_id@,
        ) by {
            lemma_filter_member(t.messages, |m: ChatMessage| m.session_id@ != id, i);
            let j = choose|j: int|
                0 <= j < t.messages.len() && t.messages[j] == after.messages[i] && t.messages[j].session_id@ != id;
            assert(has_session(t, t.messages[j].session_id@));
            let k = choose|k: int|
                0 <= k < t.sessions.len() && (#[trigger] t.sessions[k]).id@ == t.messages[j].session_id@;
            lemma_filter_has(t.sessions, |s: ChatSession| s.id@ != id, k);
        }
    }
}

/// Deleting a provider that does not exist, in a store where no reference
/// dangles, is accepted and changes nothing.
pub proof fn lemma_delete_missing_provider(t: Tables, id: Seq<char>, plan: Seq<Statement>)
    requires
        integrity(t),
        !has_provider(t, id),
        is_delete_provider_plan(plan, id, owned_models(t, id)),
    ensures
        all_accepted(t, plan),
        run(t, plan) == t,
{
    let owned = owned_models(t, id);
    if owned.len() > 0 {
        lemma_filter_member(t.models, owned_by(id), 0);
        let j = choose|j: int| 0 <= j < t.models.len() && t.models[j] == owned[0] && owned_by(id)(t.models[j]);
        assert(has_provider(t, t.models[j].provider_id@));
    }
    lemma_delete_provider_cascades(t, id, plan);
    let after = run(t, plan);
    lemma_filter_keeps_all(t.providers, |p: AIProvider| p.id@ != id);
    assert forall|i: int| 0 <= i < t.models.len() implies (|m: AIModel| m.provider_id@ != id)(
        #[trigger] t.models[i],
    ) by {
        assert(has_provider(t, t.models[i].provider_id@));
    }
    lemma_filter_keeps_all(t.models, |m: AIModel| m.provider_id@ != id);
    assert(after.sessions =~= t.sessions);
    assert(after == t);
}

/// Deleting a model that does not exist, in a store where no reference
/// dangles, is accepted and changes nothing.
pub proof fn lemma_delete_missing_model(t: Tables, id: Seq<char>, plan: Seq<Statement>)
    requires
        integrity(t),
        !has_model(t, id),
        is_delete_model_plan(plan, id),
    ensures
        all_accepted(t, plan),
        run(t, plan) == t,
{
    lemma_run_two(t, plan);
    let mid = plan[0]->DetachModel_model_id;
    let did = plan[1]->DeleteModel_id;
    let after = run(t, plan);
    assert forall|i: int| 0 <= i < t.sessions.len() implies detach(#[trigger] t.sessions[i], mid@) == t.sessions[i] by {
        if let Some(m) = t.sessions[i].model_id {
            assert(has_model(t, m@));
        }
    }
    assert(t.sessions.map_values(|s: ChatSession| detach(s, mid@)) =~= t.sessions);
    assert forall|i: int| 0 <= i < t.models.len() implies (|m: AIModel| m.id@ != did@)(#[trigger] t.models[i]) by {}
    lemma_filter_keeps_all(t.models, |m: AIModel| m.id@ != did@);
    assert(after == t);
}

/// Deleting a session that does not exist, in a store where no reference
/// dangles, is accepted and changes nothing.
pub proof fn lemma_delete_missing_session(t: Tables, id: Seq<char>, plan: Seq<Statement>)
    requires
        integrity(t),
        !has_session(t, id),
        is_delete_session_plan(plan, id),
    ensures
        all_accepted(t, plan),
        run(t, plan) == t,
{
    lemma_delete_session_cascades(t, id, plan);
    assert forall|i: int| 0 <= i < t.messages.len() implies (|m: ChatMessage| m.session_id@ != id)(
        #[trigger] t.messages[i],
    ) by {
        assert(has_session(t, t.messages[i].session_id@));
    }
    lemma_filter_keeps_all(t.messages, |m: ChatMessage| m.session_id@ != id);
    lemma_filter_keeps_all(t.sessions, |s: ChatSession| s.id@ != id);
    assert(run(t, plan) == t);
}

/// Deleting an assistant that does not exist is accepted and changes
/// nothing.
pub proof fn lemma_delete_missing_assistant(t: Tables, id: Seq<char>, plan: Seq<Statement>)
    requires
        !has_assistant(t, id),
        is_delete_assistant_plan(plan, id),
    ensures
        all_accepted(t, plan),
        run(t, plan) == t,
{
    assert(plan.drop_last() =~= Seq::<Statement>::empty());
    assert(run(t, plan.drop_last()) == t);
    assert(all_accepted(t, plan.drop_last()));
    let did = plan[0]->DeleteAssistant_id;
    assert forall|i: int| 0 <= i < t.assistants.len() implies (|a: Assistant| a.id@ != did@)(
        #[trigger] t.assistants[i],
    ) by {}
    lemma_filter_keeps_all(t.assistants, |a: Assistant| a.id@ != did@);
    assert(run(t, plan) == t);
}

/// Creating a provider and reading it back by its id gives the row that was
/// created: the fields it was created from, under its id, stamped once.
pub proof fn lemma_provider_round_trip(
    t: Tables,
    s: Statement,
    id: Seq<char>,
    name: Seq<char>,
    api_url: Seq<char>,
    api_key_name: Seq<char>,
    api_key: Seq<char>,
)
    requires
        s matches Statement::InsertProvider(p) && p.id@ == id && is_new_provider(
            p,
            name,
            api_url,
            api_key_name,
            api_key,
        ),
        accepts(t, s),
    ensures
        provider_with_id(apply(t, s), id) == Some(s->InsertProvider_0),
        provider_with_id(apply(t, s), id) matches Some(q) && q.id@ == id && is_new_provider(
            q,
            name,
            api_url,
            api_key_name,
            api_key,
        ),
{
    let p = s->InsertProvider_0;
    let pred = provider_has_id(id);
    t.providers.lemma_filter_push(p, pred);
    if t.providers.filter(pred).len() > 0 {
        lemma_filter_member(t.providers, pred, 0);
        let j = choose|j: int| 0 <= j < t.providers.len() && t.providers[j] == t.providers.filter(pred)[0] && pred(t.providers[j]);
        assert(has_provider(t, id));
    }
    assert(apply(t, s).providers.filter(pred) =~= seq![p]);
}

/// Deleting a model, run as the plan that [`crate::db::delete_model`]
/// makes: the statements are accepted; the model is gone; every session
/// survives, and one that referred to it now refers to none; nothing else
/// changes, and no reference dangles where none did before.
pub proof fn lemma_delete_model_cascades(t: Tables, id: Seq<char>, plan: Seq<Statement>)
    requires
        is_delete_model_plan(plan, id),
    ensures
        all_accepted(t, plan),
        run(t, plan).models == t.models.filter(|m: AIModel| m.id@ != id),
        run(t, plan).sessions == t.sessions.map_values(|s: ChatSession| detach(s, id)),
        !has_model(run(t, plan), id),
        run(t, plan).providers == t.providers,
        run(t, plan).messages == t.messages,
        run(t, plan).assistants == t.assistants,
        run(t, plan).settings == t.settings,
        integrity(t) ==> integrity(run(t, plan)),
{
    lemma_run_two(t, plan);
    let mid = plan[0]->DetachModel_model_id;
    let did = plan[1]->DeleteModel_id;
    let after = run(t, plan);
    assert((|s: ChatSession| detach(s, mid@)) == (|s: ChatSession| detach(s, id)));
    assert((|m: AIModel| m.id@ != did@) == (|m: AIModel| m.id@ != id));
    assert(after.models == t.models.filter(|m: AIModel| m.id@ != id));
    assert(after.sessions == t.sessions.map_values(|s: ChatSession| detach(s, id)));
    if has_model(after, id) {
        let i = choose|i: int| 0 <= i < after.models.len() && (#[trigger] after.models[i]).id@ == id;
        lemma_filter_member(t.models, |m: AIModel| m.id@ != id, i);
    }
    if integrity(t) {
        assert forall|i: int| 0 <= i < after.models.len() implies has_provider(
            after,
            (#[trigger] after.models[i]).provider_id@,
        ) by {
            lemma_filter_member(t.models, |m: AIModel| m.id@ != id, i);
            let j = choose|j: int| 0 <= j < t.models.len() && t.models[j] == after.models[i] && t.models[j].id@ != id;
            assert(has_provider(t, t.models[j].provider_id@));
        }
        assert forall|i: int| 0 <= i < after.sessions.len() implies ((#[trigger] after.sessions[i]).model_id matches Some(
            m,
        ) ==> has_model(after, m@)) by {
            if let Some(m) = after.sessions[i].model_id {
                assert(t.sessions[i].model_id == after.sessions[i].model_id);
                assert(has_model(t, m@));
                let k = choose|k: int| 0 <= k < t.models.len() && (#[trigger] t.models[k]).id@ == m@;
                lemma_filter_has(t.models, |m: AIModel| m.id@ != id, k);
            }
        }
        assert forall|i: int| 0 <= i < after.messages.len() implies has_session(
            after,
            (#[trigger] after.messages[i]).session_id@,
        ) by {
            let k = choose|k: int|
                0 <= k < t.sessions.len() && (#[trigger] t.sessions[k]).id@ == t.messages[i].session_id@;
            assert(after.sessions[k].id@ == t.sessions[k].id@);
        }
    }
}

/// Adding a message to a stored session, run as the plan that
/// [`crate::db::add_message`] makes from the session's row, and accepted:
/// the message is appended, and the session now carries the message's time
/// as its update time; no other row changes, and no reference dangles
/// afterwards where none did before.
pub proof fn lemma_add_message_touches_session(
    t: Tables,
    session_id: Seq<char>,
    role: Seq<char>,
    content: Seq<char>,
    plan: Seq<Statement>,
)
    requires
        is_add_message_plan(plan, session_id, role, content),
        has_session(t, session_id),
        all_accepted(t, plan),
    ensures
        run(t, plan).messages == t.messages.push(plan[0]->InsertMessage_0),
        is_role(role),
        run(t, plan).sessions.len() == t.sessions.len(),
        forall|i: int|
            0 <= i < t.sessions.len() ==> (#[trigger] run(t, plan).sessions[i]) == (if t.sessions[i].id@ == session_id {
                ChatSession { updated_at: plan[0]->InsertMessage_0.timestamp, ..t.sessions[i] }
            } else {
                t.sessions[i]
            }),
        run(t, plan).providers == t.providers,
        run(t, plan).models == t.models,
        run(t, plan).assistants == t.assistants,
        run(t, plan).settings == t.settings,
        integrity(t) ==> integrity(run(t, plan)),
{
    lemma_run_two(t, plan);
    let m = plan[0]->InsertMessage_0;
    let after = run(t, plan);
    if integrity(t) {
        assert forall|i: int| 0 <= i < after.messages.len() implies has_session(
            after,
            (#[trigger] after.messages[i]).session_id@,
        ) by {
            if i < t.messages.len() {
                assert(after.messages[i] == t.messages[i]);
            }
            let sid = after.messages[i].session_id@;
            assert(has_session(t, sid));
            let k = choose|k: int| 0 <= k < t.sessions.len() && (#[trigger] t.sessions[k]).id@ == sid;
            assert(after.sessions[k].id@ == sid);
        }
        assert forall|i: int| 0 <= i < after.sessions.len() implies ((#[trigger] after.sessions[i]).model_id matches Some(
            x,
        ) ==> has_model(after, x@)) by {
            assert(after.sessions[i].model_id == t.sessions[i].model_id);
            if let Some(x) = t.sessions[i].model_id {
                assert(has_model(t, x@));
                let k = choose|k: int| 0 <= k < t.models.len() && (#[trigger] t.models[k]).id@ == x@;
                assert(after.models[k].id@ == x@);
            }
        }
    }
}

/// Adding a model whose provider is stored, as [`crate::db::add_model`]
/// makes it from the provider's row: the model is appended, and no
/// reference dangles afterwards where none did before.
pub proof fn lemma_add_model_keeps_integrity(t: Tables, s: Statement)
    requires
        s matches Statement::InsertModel(m) && has_provider(t, m.provider_id@),
    ensures
        apply(t, s).models == t.models.push(s->InsertModel_0),
        integrity(t) ==> integrity(apply(t, s)),
{
    let after = apply(t, s);
    if integrity(t) {
        assert forall|i: int| 0 <= i < after.models.len() implies has_provider(
            after,
            (#[trigger] after.models[i]).provider_id@,
        ) by {
            if i < t.models.len() {
                assert(after.models[i] == t.models[i]);
            }
        }
        assert forall|i: int| 0 <= i < after.sessions.len() implies ((#[trigger] after.sessions[i]).model_id matches Some(
            x,
        ) ==> has_model(after, x@)) by {
            if let Some(x) = after.sessions[i].model_id {
                assert(has_model(t, x@));
                let k = choose|k: int| 0 <= k < t.models.len() && (#[trigger] t.models[k]).id@ == x@;
                assert(after.models[k] == t.models[k]);
            }
        }
    }
}

/// Adding a session whose model, where it names one, is stored, as
/// [`crate::db::create_chat_session`] makes it from the model's row: the
/// session is appended, and no reference dangles afterwards where none did
/// before.
pub proof fn lemma_add_session_keeps_integrity(t: Tables, s: Statement)
    requires
        s matches Statement::InsertSession(x) && (x.model_id matches Some(mid) ==> has_model(t, mid@)),
    ensures
        apply(t, s).sessions == t.sessions.push(s->InsertSession_0),
        integrity(t) ==> integrity(apply(t, s)),
{
    let after = apply(t, s);
    if integrity(t) {
        assert forall|i: int| 0 <= i < after.sessions.len() implies ((#[trigger] after.sessions[i]).model_id matches Some(
            x,
        ) ==> has_model(after, x@)) by {
            if let Some(x) = after.sessions[i].model_id {
                if i < t.sessions.len() {
                    assert(after.sessions[i] == t.sessions[i]);
                } else {
                    assert(after.sessions[i] == s->InsertSession_0);
                }
                assert(has_model(t, x@));
                let k = choose|k: int| 0 <= k < t.models.len() && (#[trigger] t.models[k]).id@ == x@;
                assert(after.models[k] == t.models[k]);
            }
        }
        assert forall|i: int| 0 <= i < after.messages.len() implies has_session(
            after,
            (#[trigger] after.messages[i]).session_id@,
        ) by {
            let k = choose|k: int|
                0 <= k < t.sessions.len() && (#[trigger] t.sessions[k]).id@ == t.messages[i].session_id@;
            assert(after.sessions[k] == t.sessions[k]);
        }
    }
}

} // verus!

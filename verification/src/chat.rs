//! Chat bookkeeping: which persona answers, the memory summary given to the
//! model, the reply when the model fails, and the records a turn leaves.

use vstd::prelude::*;

use crate::llm::{fallback_text, prompt_text, route_chat, ChatRoute, LlmConfig};
use crate::models::{ChatRequest, Persona};
use crate::text::{concat, join, joined, starts_with_text, texts_of};

verus! {

/// The memory summary of a session from its latest memory rows: `none`
/// when there are none, else the rows joined with `; `.
pub open spec fn summary_text(rows: Seq<String>) -> Seq<char> {
    if rows.len() == 0 {
        "none"@
    } else {
        joined(texts_of(rows), "; "@)
    }
}

/// Summarises a session's latest memory rows.
pub fn memory_summary(rows: &Vec<String>) -> (s: String)
    ensures
        s@ == summary_text(rows@),
{
    if rows.len() == 0 {
        String::from_str("none")
    } else {
        join(rows, "; ")
    }
}

/// The memory a chat turn records: the context mode it ran in.
pub fn memory_update(context_mode: &str) -> (s: String)
    ensures
        s@ == "latest_context_mode="@ + context_mode@,
{
    concat("latest_context_mode=", context_mode)
}

/// How a chat turn asks for its reply: the model is asked as the found
/// persona (its name and tone), with the summary of the session's latest
/// memory rows (read before the turn writes anything) and the user's
/// message; without an API key the reply is the local one.
pub fn plan_chat(config: &LlmConfig, persona: &Persona, memory_rows: &Vec<String>, req: &ChatRequest) -> (r:
    ChatRoute)
    ensures
        config.api_key is None ==> (r matches ChatRoute::Local(t) && t@ == fallback_text(req.message@)),
        config.api_key matches Some(k) ==> (r matches ChatRoute::Remote(c) && {
            &&& c.api_key@ == k@
            &&& c.model@ == config.model@
            &&& c.system_prompt@ == prompt_text(persona.name@, persona.tone@, summary_text(memory_rows@))
            &&& c.user_message@ == req.message@
        }),
{
    let summary = memory_summary(memory_rows);
    route_chat(config, persona.name.as_str(), persona.tone.as_str(), summary.as_str(), req.message.as_str())
}

/// The persona a chat turn uses: the one found under the requested id, or
/// an error naming the id.
pub fn find_persona(persona_id: &str, found: Option<Persona>) -> (r: Result<Persona, String>)
    ensures
        found matches Some(p) ==> r == Ok::<Persona, String>(p),
        found is None ==> (r matches Err(e) && e@ == "persona not found: "@ + persona_id@),
{
    match found {
        Some(p) => Ok(p),
        None => Err(concat("persona not found: ", persona_id)),
    }
}

/// The text the pet says when the model could not answer.
pub open spec fn apology() -> Seq<char> {
    "我刚才走神了，请再说一次。"@
}

/// The reply of a chat turn: the model's, or an apology when it failed.
pub fn reply_or_apology(model_reply: Option<String>) -> (s: String)
    ensures
        model_reply matches Some(t) ==> s@ == t@,
        model_reply is None ==> s@ == apology(),
{
    match model_reply {
        Some(t) => t,
        None => String::from_str("我刚才走神了，请再说一次。"),
    }
}

/// A message stored in a chat session.
#[derive(Clone, Debug, PartialEq, Eq)]
pub struct ChatMessage {
    pub session_id: String,
    pub role: String,
    pub content: String,
}

/// What a chat turn leaves: the user's message and the pet's reply in the
/// session, a memory row, and the answer (reply, suggested actions, memory
/// updates).
#[derive(Clone, Debug, PartialEq, Eq)]
pub struct ChatTurn {
    pub user_message: ChatMessage,
    pub assistant_message: ChatMessage,
    pub memory: String,
    pub reply: String,
    pub actions: Vec<String>,
    pub memory_updates: Vec<String>,
}

/// The records and answer of a chat turn that got `reply`.
pub fn chat_turn(req: &ChatRequest, reply: String) -> (t: ChatTurn)
    ensures
        t.user_message.session_id@ == req.session_id@,
        t.user_message.role@ == "user"@,
        t.user_message.content@ == req.message@,
        t.assistant_message.session_id@ == req.session_id@,
        t.assistant_message.role@ == "assistant"@,
        t.assistant_message.content@ == reply@,
        t.memory@ == "latest_context_mode="@ + req.context_mode@,
        t.reply@ == reply@,
        t.actions@.len() == 0,
        t.memory_updates@.len() == 1,
        t.memory_updates@[0]@ == t.memory@,
{
    let memory = memory_update(req.context_mode.as_str());
    let mut memory_updates: Vec<String> = Vec::new();
    memory_updates.push(memory.clone());
    ChatTurn {
        user_message: ChatMessage {
            session_id: req.session_id.clone(),
            role: String::from_str("user"),
            content: req.message.clone(),
        },
        assistant_message: ChatMessage {
            session_id: req.session_id.clone(),
            role: String::from_str("assistant"),
            content: reply.clone(),
        },
        memory,
        reply,
        actions: Vec::new(),
        memory_updates,
    }
}

/// A list joined with a separator begins with its first part.
proof fn lemma_joined_begins_with_first(parts: Seq<Seq<char>>, sep: Seq<char>)
    requires
        parts.len() > 0,
    ensures
        starts_with_text(joined(parts, sep), parts[0]),
    decreases parts.len(),
{
    if parts.len() > 1 {
        lemma_joined_begins_with_first(parts.drop_last(), sep);
        let head = joined(parts.drop_last(), sep);
        assert((head + sep + parts.last()).subrange(0, parts[0].len() as int) =~= head.subrange(
            0,
            parts[0].len() as int,
        ));
    } else {
        assert(joined(parts, sep).subrange(0, parts[0].len() as int) =~= parts[0]);
    }
}

/// Law: the memory rows of a session come newest first, so the summary that
/// the next turn reads begins with the memory row of the turn before it,
/// whatever older rows follow.
pub proof fn law_latest_memory_heads_summary(latest: String, older: Seq<String>)
    ensures
        starts_with_text(summary_text(seq![latest] + older), latest@),
{
    let rows = seq![latest] + older;
    assert(texts_of(rows)[0] == latest@);
    lemma_joined_begins_with_first(texts_of(rows), "; "@);
}

} // verus!

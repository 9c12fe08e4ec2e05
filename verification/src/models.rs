//! The records that pass between the pet's front end, its storage and its
//! rules. Instants are milliseconds since the Unix epoch (see `clock`).

use vstd::prelude::*;

verus! {

/// A chat message sent to the pet.
#[derive(Clone, Debug, PartialEq, Eq)]
pub struct ChatRequest {
    pub message: String,
    pub session_id: String,
    pub persona_id: String,
    pub context_mode: String,
}

/// A todo as stored and listed.
#[derive(Clone, Debug, PartialEq, Eq)]
pub struct TodoItem {
    pub id: String,
    pub title: String,
    pub due_at: Option<i64>,
    pub repeat_rule: Option<String>,
    pub priority: i32,
    pub status: String,
    pub source: String,
}

/// The fields of a new todo.
#[derive(Clone, Debug, PartialEq, Eq)]
pub struct TodoCreateRequest {
    pub title: String,
    pub due_at: Option<i64>,
    pub repeat_rule: Option<String>,
    pub priority: i32,
    pub source: String,
}

/// A change to a todo: absent fields keep their value; `clear_due_at`
/// set to `true` removes the due time.
#[derive(Clone, Debug, PartialEq, Eq)]
pub struct TodoUpdateRequest {
    pub id: String,
    pub title: Option<String>,
    pub due_at: Option<i64>,
    pub clear_due_at: Option<bool>,
    pub repeat_rule: Option<String>,
    pub priority: Option<i32>,
}

/// A request to postpone a reminder by some minutes.
#[derive(Clone, Debug, PartialEq, Eq)]
pub struct ReminderSnoozeRequest {
    pub todo_id: String,
    pub minutes: i64,
}

/// A request to silence a reminder.
#[derive(Clone, Debug, PartialEq, Eq)]
pub struct ReminderDismissRequest {
    pub todo_id: String,
}

/// A character the pet can play.
#[derive(Clone, Debug, PartialEq, Eq)]
pub struct Persona {
    pub id: String,
    pub name: String,
    pub tone: String,
    pub style_tags: String,
    pub prohibited_topics: String,
    pub initiative_level: i32,
    pub quiet_hours_start: Option<String>,
    pub quiet_hours_end: Option<String>,
}

/// The parameters of a system action that the rules read: the `app`,
/// `url` and `script` entries when they are strings, and the whole
/// parameter object as JSON text for the audit log.
#[derive(Clone, Debug, PartialEq, Eq)]
pub struct ActionParams {
    pub app: Option<String>,
    pub url: Option<String>,
    pub script: Option<String>,
    pub json: String,
}

/// A request to run a desktop action.
#[derive(Clone, Debug, PartialEq, Eq)]
pub struct SystemActionRequest {
    pub action_id: String,
    pub params: ActionParams,
    pub confirmed: bool,
}

/// The answer to a system action request.
#[derive(Clone, Debug, PartialEq, Eq)]
pub struct SystemActionResult {
    pub risk_level: String,
    pub requires_confirm: bool,
    pub audit_id: String,
    pub result: String,
}

/// What the health probe reports.
#[derive(Clone, Debug, PartialEq, Eq)]
pub struct HealthStatus {
    pub status: String,
    pub db_ready: bool,
    pub llm_mode: String,
}

} // verus!

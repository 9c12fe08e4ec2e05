//! The language model's side of a chat: whether a cloud model is
//! configured, the prompt it gets, and the local replies used instead of it.

use vstd::prelude::*;

use crate::models::HealthStatus;
use crate::text::{concat, contains, contains_text, opt_text};

verus! {

/// How the pet reaches a language model.
#[derive(Clone, Debug, PartialEq, Eq)]
pub struct LlmConfig {
    pub api_key: Option<String>,
    pub model: String,
}

/// The model used when none is configured.
pub open spec fn default_model() -> Seq<char> {
    "gpt-4o-mini"@
}

impl LlmConfig {
    /// A configuration from an optional API key and an optional model name
    /// (the default model when absent).
    pub fn new(api_key: Option<String>, model: Option<String>) -> (c: Self)
        ensures
            c.api_key == api_key,
            model matches Some(m) ==> c.model == m,
            model is None ==> c.model@ == default_model(),
    {
        let model = match model {
            Some(m) => m,
            None => String::from_str("gpt-4o-mini"),
        };
        LlmConfig { api_key, model }
    }

    /// `cloud` when an API key is configured, `fallback` otherwise.
    pub fn mode(&self) -> (m: &'static str)
        ensures
            self.api_key is Some ==> m@ == "cloud"@,
            self.api_key is None ==> m@ == "fallback"@,
    {
        if self.api_key.is_some() {
            "cloud"
        } else {
            "fallback"
        }
    }
}

/// The local reply to a user message: about todos and reminders when it
/// mentions them, a greeting when it greets, an offer to help otherwise.
pub open spec fn fallback_text(message: Seq<char>) -> Seq<char> {
    if contains_text(message, "待办"@) || contains_text(message, "提醒"@) {
        "我记下了。你可以在待办面板里确认和调整时间。"@
    } else if contains_text(message, "你好"@) {
        "你好，我在。告诉我你现在最想推进的一件事。"@
    } else {
        "收到。这个问题我可以继续帮你拆解成下一步行动。"@
    }
}

/// Answers a user message without a model.
pub fn fallback_reply(user_message: &str) -> (s: String)
    ensures
        s@ == fallback_text(user_message@),
{
    if contains(user_message, "待办") || contains(user_message, "提醒") {
        String::from_str("我记下了。你可以在待办面板里确认和调整时间。")
    } else if contains(user_message, "你好") {
        String::from_str("你好，我在。告诉我你现在最想推进的一件事。")
    } else {
        String::from_str("收到。这个问题我可以继续帮你拆解成下一步行动。")
    }
}

/// The system prompt that sets the persona for the model.
pub open spec fn prompt_text(name: Seq<char>, tone: Seq<char>, memory: Seq<char>) -> Seq<char> {
    "You are "@ + name + ". Tone: "@ + tone
        + ". Use concise Chinese unless user asks otherwise. Memory: "@ + memory
}

/// Builds the system prompt for a persona and a memory summary.
pub fn system_prompt(persona_name: &str, tone: &str, memory_summary: &str) -> (s: String)
    ensures
        s@ == prompt_text(persona_name@, tone@, memory_summary@),
{
    let a = concat("You are ", persona_name);
    let b = concat(a.as_str(), ". Tone: ");
    let c = concat(b.as_str(), tone);
    let d = concat(c.as_str(), ". Use concise Chinese unless user asks otherwise. Memory: ");
    concat(d.as_str(), memory_summary)
}

/// A request to the cloud model.
#[derive(Clone, Debug, PartialEq, Eq)]
pub struct RemoteChat {
    pub api_key: String,
    pub model: String,
    pub system_prompt: String,
    pub user_message: String,
}

/// How a chat message gets its reply.
#[derive(Clone, Debug, PartialEq, Eq)]
pub enum ChatRoute {
    /// Answered locally with this reply.
    Local(String),
    /// Sent to the cloud model.
    Remote(RemoteChat),
}

/// Routes a message: to the cloud model when an API key is configured,
/// else answered locally.
pub fn route_chat(
    config: &LlmConfig,
    persona_name: &str,
    tone: &str,
    memory_summary: &str,
    user_message: &str,
) -> (r: ChatRoute)
    ensures
        config.api_key is None ==> (r matches ChatRoute::Local(t) && t@ == fallback_text(user_message@)),
        config.api_key matches Some(k) ==> (r matches ChatRoute::Remote(c) && {
            &&& c.api_key@ == k@
            &&& c.model@ == config.model@
            &&& c.system_prompt@ == prompt_text(persona_name@, tone@, memory_summary@)
            &&& c.user_message@ == user_message@
        }),
{
    match &config.api_key {
        Some(k) => ChatRoute::Remote(
            RemoteChat {
                api_key: k.clone(),
                model: config.model.clone(),
                system_prompt: system_prompt(persona_name, tone, memory_summary),
                user_message: String::from_str(user_message),
            },
        ),
        None => ChatRoute::Local(fallback_reply(user_message)),
    }
}

/// How long a request to the cloud model may take, in seconds.
pub const LLM_TIMEOUT_SECS: u64 = 30;

/// What the cloud model's response body holds: `None` when it is not JSON,
/// else the text at `choices[0].message.content`, or `None` inside when
/// there is no text there.
pub uninterp spec fn reply_content(body: Seq<u8>) -> Option<Option<Seq<char>>>;

/// Reads the answer text from a response body: `serde_json::from_slice` into
/// a `serde_json::Value`, then its `choices[0].message.content` when that is
/// a string (serde_json's indexing gives `Null` for any missing step).
/// Claimed: the result is `reply_content` of the body's bytes, on which
/// alone it depends; serde_json's JSON grammar is not stated.
#[verifier::external_body]
pub(crate) fn parse_reply_content(body: &[u8]) -> (r: Option<Option<String>>)
    ensures
        match r {
            None => reply_content(body@) is None,
            Some(c) => reply_content(body@) == Some(opt_text(c)),
        },
{
    match serde_json::from_slice::<serde_json::Value>(body) {
        Ok(v) => Some(v["choices"][0]["message"]["content"].as_str().map(String::from)),
        Err(_) => None,
    }
}

/// The reply the pet gives when the model's answer has no text.
pub open spec fn empty_answer_reply() -> Seq<char> {
    "我听到了，我们一步步来。"@
}

/// The reply taken from what a response body holds: an error when the body
/// was not JSON; else the answer's text, or a stock reply when the answer
/// holds none.
pub fn answer_from_content(content: Option<Option<String>>) -> (r: Result<String, String>)
    ensures
        content is None ==> (r matches Err(e) && e@ == "llm parse failed"@),
        content matches Some(Some(t)) ==> (r matches Ok(x) && x@ == t@),
        content matches Some(None) ==> (r matches Ok(x) && x@ == empty_answer_reply()),
{
    match content {
        None => Err(String::from_str("llm parse failed")),
        Some(Some(t)) => Ok(t),
        Some(None) => Ok(String::from_str("我听到了，我们一步步来。")),
    }
}

/// The reply from the cloud model's response: the local reply when the
/// request was refused; an error when the body is not JSON; else the
/// answer's text, or a stock reply when the answer holds none.
pub fn remote_answer(success: bool, body: &[u8], user_message: &str) -> (r: Result<String, String>)
    ensures
        !success ==> (r matches Ok(t) && t@ == fallback_text(user_message@)),
        success && reply_content(body@) is None ==> (r matches Err(e) && e@ == "llm parse failed"@),
        success ==> (reply_content(body@) matches Some(c) ==> (r matches Ok(t) && t@ == match c {
            Some(x) => x,
            None => empty_answer_reply(),
        })),
{
    if !success {
        return Ok(fallback_reply(user_message));
    }
    answer_from_content(parse_reply_content(body))
}

/// The health report: running, storage ready, and the model mode.
pub fn health_status(config: &LlmConfig) -> (h: HealthStatus)
    ensures
        h.status@ == "ok"@,
        h.db_ready,
        config.api_key is Some ==> h.llm_mode@ == "cloud"@,
        config.api_key is None ==> h.llm_mode@ == "fallback"@,
{
    HealthStatus {
        status: String::from_str("ok"),
        db_ready: true,
        llm_mode: String::from_str(config.mode()),
    }
}

} // verus!

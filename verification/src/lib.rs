//! Core rules of a desktop pet assistant: todo records, reminder
//! scheduling, the self-talk engine, chat bookkeeping and whitelisted
//! system actions. Storage, windows, network and processes live with the
//! caller; this crate decides what they are asked to do.

pub mod chat;
pub mod clock;
pub mod db;
pub mod ids;
pub mod llm;
pub mod models;
pub mod persona;
pub mod reminder;
pub mod self_talk;
pub mod state;
pub mod system_action;
pub mod text;
pub mod todo;

//! Decision logic of a Telegram assistant bot: command parsing, access
//! rules, prompt building, provider fallback and reply streaming.

pub mod text;
pub mod search;
pub mod prompt;
pub mod config;
pub mod llm_pool;
pub mod webhook;
pub mod reply;

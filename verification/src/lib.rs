//! Verified core of a Telegram bot that keeps a per-chat history of messages
//! in a Redis stream and lets users page through it with inline buttons.
pub mod dto;
pub mod error;
pub mod keys;
pub mod text;
pub mod types;
pub mod parser;
pub mod store;
pub mod history;
pub mod prev_next;
pub mod handler;
pub mod polling;

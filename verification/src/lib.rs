//! A proxy from the Responses API to the Chat Completions API: how a request to the one becomes a
//! request to the other.
//!
//! `converter` converts whole requests, `transcript` the items of an input, `content` the content of
//! a message, and `call_ids` keeps tool calls and their outputs together. `laws` states what holds of
//! the conversion as a whole; `promises`, `chat_promises` and `request_promises` state what becomes of
//! each thing that is given, field by field. `json` says what is relied on of `serde_json`.
pub mod call_ids;
pub mod chat_promises;
pub mod content;
pub mod converter;
pub mod json;
pub mod laws;
pub mod models;
pub mod promises;
pub mod request_promises;
pub mod settings;
pub mod text;
pub mod transcript;

//! Conversational action protocol for a personal-assistant front end.
//!
//! The library normalizes several third-party chat-completion APIs behind one
//! interface, builds the system instruction that constrains a model to a JSON
//! action schema, tolerantly parses the model's raw output into a list of
//! actions, and resolves per-call provider configuration from layered sources.

pub mod chat;
pub mod error;
pub mod extract;
pub mod json;
pub mod notify;
pub mod prompt;
pub mod provider;
pub mod records;
pub mod settings;
pub mod text;
pub mod transcribe;

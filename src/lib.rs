//! A client-side engine for multi-turn conversations with a streaming
//! chat-completion service: frame decoding, turn control, cost estimates and
//! the conversation catalog.

pub mod catalog;
pub mod conversation;
pub mod delta;
pub mod json;
pub mod message;
pub mod settings;

//! The chat session: the handler surface and the protocol engine.

pub mod chat;
pub mod handler;

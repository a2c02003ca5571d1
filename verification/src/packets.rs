//! Wire packet and payload shapes for the chat and event-subscription
//! protocols, with the REST records the bootstrap call resolves.

pub mod chat;
pub mod common;
pub mod constellation;

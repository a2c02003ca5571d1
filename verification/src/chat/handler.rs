//! The caller-supplied handler surface: one callback per event
//! capability, each returning what the session should do next.

use vstd::prelude::*;
use crate::packets::chat::{
    ChatMessageEventPacket, PurgeUserPacket, TimeoutPacket, UserJoinPacket, UserLeavePacket,
};

verus! {

/// What a handler asks the session to do after a callback: nothing,
/// log an error and continue, or send a message back into the channel.
#[derive(Debug)]
pub enum ChatResult {
    Nothing,
    Error(String),
    Message(String),
}

/// Handle events from the chat socket. Only the message callback is
/// mandatory; every other capability defaults to doing nothing.
pub trait ChatHandler {
    /// Fired once the session has joined the channel.
    fn on_connect(&mut self) -> ChatResult {
        ChatResult::Nothing
    }

    /// Fired when the socket is closed.
    fn on_disconnect(&mut self) -> ChatResult {
        ChatResult::Nothing
    }

    /// Fired when the socket is reconnected after a disconnection.
    /// The engine declares this capability but never invokes it:
    /// reconnection is an extension point, not implemented behavior.
    fn on_reconnect(&mut self) -> ChatResult {
        ChatResult::Nothing
    }

    /// Fired when a message is sent in the connected channel.
    fn on_message(&mut self, message: ChatMessageEventPacket) -> ChatResult;

    /// Fired when a user joins the channel.
    fn on_user_join(&mut self, packet: UserJoinPacket) -> ChatResult {
        ChatResult::Nothing
    }

    /// Fired when a user leaves the channel.
    fn on_user_leave(&mut self, packet: UserLeavePacket) -> ChatResult {
        ChatResult::Nothing
    }

    /// Fired when a user is timed out in chat.
    fn on_user_timeout(&mut self, packet: TimeoutPacket) -> ChatResult {
        ChatResult::Nothing
    }

    /// Fired when a user is purged in chat.
    fn on_user_purged(&mut self, packet: PurgeUserPacket) -> ChatResult {
        ChatResult::Nothing
    }

    /// Fired when chat has been cleared.
    fn on_chat_cleared(&mut self) -> ChatResult {
        ChatResult::Nothing
    }

    /// Fired when a single message is deleted.
    fn on_message_deleted(&mut self) -> ChatResult {
        ChatResult::Nothing
    }
}

} // verus!

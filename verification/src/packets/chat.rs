//! Chat wire packet shapes: the tagged frame kinds, the event payload
//! families, and the spec-level mirrors the codec contracts speak of.

use vstd::prelude::*;
use crate::json::Json;

verus! {

/// Top-level frame discriminator.
#[derive(Clone, Copy, Debug, PartialEq, Eq, Structural)]
pub enum PacketType {
    Method,
    Reply,
    Event,
}

/// Inbound event tags the protocol names today; unknown tags are
/// tolerated and ignored.
#[derive(Clone, Copy, Debug, PartialEq, Eq, Structural)]
pub enum EventType {
    WelcomeEvent,
    ChatMessage,
    UserJoin,
    UserLeave,
    PollStart,
    PollEnd,
    DeleteMessage,
    PurgeMessage,
    ClearMessages,
    UserUpdate,
    UserTimeout,
}

/// Outbound command methods.
#[derive(Clone, Copy, Debug, PartialEq, Eq, Structural)]
pub enum MethodType {
    Auth,
    Msg,
    Whisper,
    Timeout,
    Purge,
    DeleteMessage,
    ClearMessages,
    History,
}

/// Only the frame discriminator, for sniffing a frame's kind.
#[derive(Clone, Debug)]
pub struct BasePacket {
    pub packet_type: PacketType,
}

/// Discriminator and event tag of an event frame.
#[derive(Clone, Debug)]
pub struct EventPacket {
    pub packet_type: PacketType,
    pub event: EventType,
}

/// The authentication frame: positional arguments carried as a JSON
/// array `[channel_id, user_id, auth_key]`.
#[derive(Debug)]
pub struct AuthenticationPacket {
    pub packet_type: PacketType,
    pub method: MethodType,
    pub arguments: Json,
    pub id: u64,
}

/// The first payload the chat server sends after a socket opens.
#[derive(Clone, Debug)]
pub struct WelcomeEventData {
    pub server: String,
}

pub struct WelcomeEventDataV {
    pub server: Seq<char>,
}

impl DeepView for WelcomeEventData {
    type V = WelcomeEventDataV;

    open spec fn deep_view(&self) -> WelcomeEventDataV {
        WelcomeEventDataV { server: self.server@ }
    }
}

#[derive(Clone, Debug)]
pub struct WelcomeEventPacket {
    pub packet_type: PacketType,
    pub event: EventType,
    pub data: WelcomeEventData,
}

#[derive(Clone, Copy, Debug, PartialEq, Eq, Structural)]
pub struct ChatMessageEmoticonCoordsData {
    pub x: u16,
    pub y: u16,
    pub width: u16,
    pub height: u16,
}

#[derive(Clone, Copy, Debug, PartialEq, Eq, Structural)]
pub enum ChatMessageType {
    Text,
    Tag,
    Emoticon,
    Link,
}

/// One fragment of a chat message body.
#[derive(Clone, Debug)]
pub struct ChatMessageMessage {
    pub message_type: ChatMessageType,
    pub data: Option<String>,
    pub text: Option<String>,
    pub url: Option<String>,
    pub id: Option<u32>,
    pub source: Option<String>,
    pub coords: Option<ChatMessageEmoticonCoordsData>,
    pub alt: Option<Vec<(String, String)>>,
}

pub struct ChatMessageMessageV {
    pub message_type: ChatMessageType,
    pub data: Option<Seq<char>>,
    pub text: Option<Seq<char>>,
    pub url: Option<Seq<char>>,
    pub id: Option<u32>,
    pub source: Option<Seq<char>>,
    pub coords: Option<ChatMessageEmoticonCoordsData>,
    pub alt: Option<Seq<(Seq<char>, Seq<char>)>>,
}

impl DeepView for ChatMessageMessage {
    type V = ChatMessageMessageV;

    open spec fn deep_view(&self) -> ChatMessageMessageV {
        ChatMessageMessageV {
            message_type: self.message_type,
            data: self.data.deep_view(),
            text: self.text.deep_view(),
            url: self.url.deep_view(),
            id: self.id,
            source: self.source.deep_view(),
            coords: self.coords,
            alt: self.alt.deep_view(),
        }
    }
}

#[derive(Clone, Copy, Debug)]
pub struct ChatMessageMeta {
    pub whisper: Option<bool>,
    pub me: Option<bool>,
    pub censored: Option<bool>,
}

/// The body of a chat message: its fragments and metadata.
#[derive(Clone, Debug)]
pub struct ChatMessageMessageData {
    pub message: Vec<ChatMessageMessage>,
    pub meta: ChatMessageMeta,
}

pub struct ChatMessageMessageDataV {
    pub message: Seq<ChatMessageMessageV>,
    pub meta: ChatMessageMeta,
}

impl DeepView for ChatMessageMessageData {
    type V = ChatMessageMessageDataV;

    open spec fn deep_view(&self) -> ChatMessageMessageDataV {
        ChatMessageMessageDataV { message: self.message.deep_view(), meta: self.meta }
    }
}

/// The payload of a `ChatMessage` event.
#[derive(Clone, Debug)]
pub struct ChatMessageEventData {
    pub channel: u32,
    pub id: String,
    pub user_name: String,
    pub user_id: u32,
    pub user_roles: Vec<String>,
    pub user_level: u64,
    pub user_avatar: String,
    pub message: ChatMessageMessageData,
    pub target: Option<String>,
}

pub struct ChatMessageEventDataV {
    pub channel: u32,
    pub id: Seq<char>,
    pub user_name: Seq<char>,
    pub user_id: u32,
    pub user_roles: Seq<Seq<char>>,
    pub user_level: u64,
    pub user_avatar: Seq<char>,
    pub message: ChatMessageMessageDataV,
    pub target: Option<Seq<char>>,
}

impl DeepView for ChatMessageEventData {
    type V = ChatMessageEventDataV;

    open spec fn deep_view(&self) -> ChatMessageEventDataV {
        ChatMessageEventDataV {
            channel: self.channel,
            id: self.id@,
            user_name: self.user_name@,
            user_id: self.user_id,
            user_roles: self.user_roles.deep_view(),
            user_level: self.user_level,
            user_avatar: self.user_avatar@,
            message: self.message.deep_view(),
            target: self.target.deep_view(),
        }
    }
}

#[derive(Clone, Debug)]
pub struct ChatMessageEventPacket {
    pub packet_type: PacketType,
    pub event: EventType,
    pub data: ChatMessageEventData,
}

/// The payload of a `UserJoin` event.
#[derive(Clone, Debug)]
pub struct UserJoinData {
    pub originating_channel: u64,
    pub username: String,
    pub roles: Vec<String>,
    pub id: u64,
}

pub struct UserJoinDataV {
    pub originating_channel: u64,
    pub username: Seq<char>,
    pub roles: Seq<Seq<char>>,
    pub id: u64,
}

impl DeepView for UserJoinData {
    type V = UserJoinDataV;

    open spec fn deep_view(&self) -> UserJoinDataV {
        UserJoinDataV {
            originating_channel: self.originating_channel,
            username: self.username@,
            roles: self.roles.deep_view(),
            id: self.id,
        }
    }
}

#[derive(Clone, Debug)]
pub struct UserJoinPacket {
    pub packet_type: PacketType,
    pub event: EventType,
    pub data: UserJoinData,
}

/// The payload of a `UserLeave` event.
#[derive(Clone, Debug)]
pub struct UserLeaveData {
    pub originating_channel: u64,
    pub username: String,
    pub id: u64,
}

pub struct UserLeaveDataV {
    pub originating_channel: u64,
    pub username: Seq<char>,
    pub id: u64,
}

impl DeepView for UserLeaveData {
    type V = UserLeaveDataV;

    open spec fn deep_view(&self) -> UserLeaveDataV {
        UserLeaveDataV {
            originating_channel: self.originating_channel,
            username: self.username@,
            id: self.id,
        }
    }
}

#[derive(Clone, Debug)]
pub struct UserLeavePacket {
    pub packet_type: PacketType,
    pub event: EventType,
    pub data: UserLeaveData,
}

/// Who cleared the chat.
#[derive(Clone, Debug)]
pub struct ClearerData {
    pub user_name: String,
    pub user_id: u32,
    pub user_roles: Vec<String>,
    pub user_level: u32,
}

#[derive(Clone, Debug)]
pub struct ClearMessagesData {
    pub clearer: ClearerData,
}

#[derive(Clone, Debug)]
pub struct ClearMessagesPacket {
    pub packet_type: PacketType,
    pub event: EventType,
    pub data: ClearMessagesData,
}

/// The moderator who purged a user.
#[derive(Clone, Debug)]
pub struct ModeratorData {
    pub user_name: String,
    pub user_id: u32,
    pub user_roles: Vec<String>,
    pub user_level: u32,
}

pub struct ModeratorDataV {
    pub user_name: Seq<char>,
    pub user_id: u32,
    pub user_roles: Seq<Seq<char>>,
    pub user_level: u32,
}

impl DeepView for ModeratorData {
    type V = ModeratorDataV;

    open spec fn deep_view(&self) -> ModeratorDataV {
        ModeratorDataV {
            user_name: self.user_name@,
            user_id: self.user_id,
            user_roles: self.user_roles.deep_view(),
            user_level: self.user_level,
        }
    }
}

/// The payload of a `PurgeMessage` event.
#[derive(Clone, Debug)]
pub struct PurgeUserData {
    pub moderator: Option<ModeratorData>,
    pub user_id: u32,
}

pub struct PurgeUserDataV {
    pub moderator: Option<ModeratorDataV>,
    pub user_id: u32,
}

impl DeepView for PurgeUserData {
    type V = PurgeUserDataV;

    open spec fn deep_view(&self) -> PurgeUserDataV {
        PurgeUserDataV { moderator: self.moderator.deep_view(), user_id: self.user_id }
    }
}

#[derive(Clone, Debug)]
pub struct PurgeUserPacket {
    pub packet_type: PacketType,
    pub event: EventType,
    pub data: PurgeUserData,
}

/// The user a `UserTimeout` event concerns.
#[derive(Clone, Debug)]
pub struct TimeoutUserData {
    pub user_name: String,
    pub user_id: u32,
    pub user_roles: Vec<String>,
}

pub struct TimeoutUserDataV {
    pub user_name: Seq<char>,
    pub user_id: u32,
    pub user_roles: Seq<Seq<char>>,
}

impl DeepView for TimeoutUserData {
    type V = TimeoutUserDataV;

    open spec fn deep_view(&self) -> TimeoutUserDataV {
        TimeoutUserDataV {
            user_name: self.user_name@,
            user_id: self.user_id,
            user_roles: self.user_roles.deep_view(),
        }
    }
}

/// The payload of a `UserTimeout` event.
#[derive(Clone, Debug)]
pub struct TimeoutData {
    pub user: TimeoutUserData,
}

pub struct TimeoutDataV {
    pub user: TimeoutUserDataV,
}

impl DeepView for TimeoutData {
    type V = TimeoutDataV;

    open spec fn deep_view(&self) -> TimeoutDataV {
        TimeoutDataV { user: self.user.deep_view() }
    }
}

#[derive(Clone, Debug)]
pub struct TimeoutPacket {
    pub packet_type: PacketType,
    pub event: EventType,
    pub data: TimeoutData,
}

/// What the lookup service resolves for a chat session: the one-time
/// auth key, the candidate endpoints, and the granted permissions.
#[derive(Clone, Debug)]
pub struct APIChatResponse {
    pub authkey: String,
    pub endpoints: Vec<String>,
    pub permissions: Vec<String>,
}

/// An outbound command frame: a method with positional string arguments.
#[derive(Clone, Debug)]
pub struct ArgumentPacket {
    pub packet_type: PacketType,
    pub method: MethodType,
    pub arguments: Vec<String>,
    pub id: u64,
}

} // verus!

//! Packet shapes of the secondary live-event subscription protocol.
//! That subsystem is declared but never finished; only its data shapes
//! and the subscription-interface naming live here.

use vstd::prelude::*;
use crate::packets::common::{Channel, FullUser};

verus! {

#[derive(Clone, Copy, Debug, PartialEq, Eq, Structural)]
pub enum PacketType {
    Method,
    Event,
}

#[derive(Clone, Copy, Debug, PartialEq, Eq, Structural)]
pub enum PacketMethod {
    LiveSubscribe,
}

#[derive(Clone, Debug)]
pub struct SubscribeParams {
    pub events: Vec<String>,
}

#[derive(Clone, Debug)]
pub struct SubscribePacket {
    pub packet_type: PacketType,
    pub method: PacketMethod,
    pub params: SubscribeParams,
    pub id: u64,
}

#[derive(Clone, Debug)]
pub struct ChannelHostedPacket {
    pub hoster_id: u64,
    pub hoster: Channel,
}

#[derive(Clone, Debug)]
pub struct ChannelFollowedPacket {
    pub user: FullUser,
    pub following: bool,
}

#[derive(Clone, Debug)]
pub struct ChannelSubscribedPacket {
    pub user: FullUser,
}

#[derive(Clone, Debug)]
pub struct ChannelResubscribedPacket {
    pub user: FullUser,
    pub since: String,
    pub until: String,
    pub total_months: u16,
}

} // verus!

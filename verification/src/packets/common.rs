//! Records returned by the REST lookup service: the user identity and
//! channel descriptors a session is built from. The session engine only
//! reads a few fields of them; the rest travel through unchanged.

use vstd::prelude::*;

verus! {

#[derive(Clone, Debug)]
pub struct SocialInfo {
    pub twitter: Option<String>,
    pub facebook: Option<String>,
    pub youtube: Option<String>,
    pub player: Option<String>,
    pub discord: Option<String>,
    pub verified: Option<String>,
}

#[derive(Clone, Debug)]
pub struct Team {
    pub id: u64,
    pub owner_id: u64,
    pub token: String,
    pub name: String,
    pub description: String,
    pub logo_url: String,
    pub background_url: String,
    pub social: Option<SocialInfo>,
}

#[derive(Clone, Debug)]
pub struct Channel {
    pub id: u32,
    pub user_id: u32,
    pub token: String,
    pub online: bool,
    pub featured: bool,
    pub feature_level: i32,
    pub partnered: bool,
    pub transcoding_profile_id: Option<u32>,
    pub suspended: bool,
    pub name: String,
    pub audience: String,
    pub viewers_total: u64,
    pub viewers_current: u64,
    pub num_followers: u64,
    pub description: Option<String>,
    pub type_id: Option<u32>,
    pub interactive: bool,
    pub interactive_game_id: Option<u32>,
    pub ftl: i8,
    pub has_vod: bool,
    pub language_id: Option<String>,
    pub cover_id: Option<u32>,
    pub thumbnail_id: Option<u32>,
    pub badge_id: Option<u32>,
    pub banner_url: Option<String>,
    pub hostee_id: Option<u32>,
    pub has_transcodes: bool,
    pub vods_enabled: bool,
    pub costream_id: Option<String>,
}

#[derive(Clone, Debug)]
pub enum UserRole {
    User,
    Banned,
    Pro,
    VerifiedPartner,
    Partner,
    Subscriber,
    ChannelEditor,
    Mod,
    GlobalMod,
    Staff,
    Founder,
    Owner,
}

#[derive(Clone, Debug)]
pub struct UserGroup {
    pub id: u32,
    pub name: UserRole,
}

#[derive(Clone, Debug)]
pub struct User {
    pub channel: Channel,
    pub groups: Vec<UserGroup>,
}

#[derive(Clone, Debug)]
pub struct FullUser {
    pub level: u64,
    pub social: Vec<(String, String)>,
    pub id: u64,
    pub username: String,
    pub verified: bool,
    pub experience: u64,
    pub sparks: u64,
    pub avatar_url: String,
    pub bio: String,
    pub primary_team: Option<Team>,
    pub created_at: String,
    pub updated_at: String,
    pub deleted_at: Option<String>,
    pub channel: Channel,
}

} // verus!

pub mod api;
pub mod chat;
pub mod codec;
pub mod common;
pub mod constellation;
pub mod json;
pub mod json_props;
pub mod packets;
pub mod pool;

//! Error taxonomy of the client: bootstrap failures from the lookup
//! service, transport failures, pool exhaustion, and rejected command
//! arguments.

use vstd::prelude::*;

verus! {

/// Why a call to the lookup service failed.
#[derive(Clone, Debug)]
pub enum RequestError {
    Unauthorized,
    BadOauth,
    BadResponseText(String),
    BadJson,
    UnknownStatusCode,
    Other(String),
}

/// Why a session operation failed. Transport errors reach the library
/// as the peer's description of what went wrong.
#[derive(Debug)]
pub enum MixerError {
    Websocket(String),
    Request(RequestError),
    ExhaustedPool,
    InvalidArgument(String),
    Other(String),
}

} // verus!

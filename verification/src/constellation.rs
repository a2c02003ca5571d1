//! The secondary live-event subscription subsystem, present only as a
//! stub. Only its handler surface and the subscription-interface
//! naming carry logic; the transport lives with the caller.

pub mod constellation;
pub mod handler;

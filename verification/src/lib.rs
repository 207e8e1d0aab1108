//! A command gateway: the small set of operations that a host shell invokes by
//! name, each answered by one round trip to a backend service.
//!
//! The gateway keeps no state between invocations. Every operation is one
//! cycle: the host's arguments become a request, the backend's answer or
//! failure comes back, and the gateway turns it into the payload or the error
//! text that the host receives. The functions here are the decisions of that
//! cycle; performing the round trip is left to the caller.

pub mod error;
pub mod gateway;
pub mod messages;
pub mod payload;

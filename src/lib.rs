//! Relays requests for exclusively owned connections between blocking
//! callers and a single owner.
//!
//! - `registry`: the keyed store that checks resources out one holder at a
//!   time, driven by commands from a mailbox.
//! - `routes`: the route tree and the envelopes that pair each request with
//!   its response type.
//! - `wire`: the length-prefixed text frame that carries one message.
//! - `client`: the frames a caller sends and the meaning of the replies.
//! - `dispatch`: what the listener does with each request frame.
//! - `protocol`: the connection protocol named in a url.
use vstd::prelude::*;

pub mod client;
pub mod dispatch;
pub mod error;
pub mod protocol;
pub mod registry;
pub mod routes;
pub mod wire;

verus! {

} // verus!

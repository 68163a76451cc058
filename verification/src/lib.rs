//! Protocol core of a proxy that reads vendor and menu data from a realtime
//! database over its WebSocket wire protocol, with the TTL caches that sit in
//! front of it.
//!
//! The crate performs no I/O. The connection is a state machine that is told
//! what happened on the socket and answers with what to do next.

pub mod cache;
pub mod chunk;
pub mod client;
pub mod decimal;
pub mod envelope;
pub mod json;
pub mod retry;

use vstd::prelude::*;

verus! {

/// Greeting served at the root of the HTTP interface.
pub open spec fn greeting() -> Seq<char> {
    "Hello, world!"@
}

/// The text answered at the root route.
pub fn index() -> (text: &'static str)
    ensures
        text@ == greeting(),
{
    "Hello, world!"
}

} // verus!

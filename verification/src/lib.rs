//! Generators without a scheduler.
//!
//! A producer is a sequential computation that pauses at explicit suspension
//! points. At each of them it hands a value to its driver and waits for the
//! driver's answer. The driver pulls: it starts the generator, looks at what
//! was yielded, and resumes it with a value of its own choosing, until the
//! producer completes.
//!
//! The `generator` module holds the machinery. The other modules use it for a
//! two-stage authentication negotiation whose suspension points stand for the
//! round trips of a network exchange.

use vstd::prelude::*;

pub mod client;
pub mod generator;
pub mod traits_mock;
pub mod kerberos_mock;
pub mod ntlm_mock;
pub mod negotiate_mock;

verus! {

/// What a negotiation asks of its driver at a suspension point.
#[derive(Debug, PartialEq, Eq)]
pub enum Event {
    /// Send a request to `url` and hand back what the peer answers.
    HttpRequest { url: String },
    /// Report a payload of this many bytes.
    PayloadLen(usize),
}

/// What the driver hands back when it resumes a negotiation.
#[derive(Debug, PartialEq, Eq)]
pub enum UserResponse {
    /// The bytes that the peer answered with.
    Payload(Vec<u8>),
    /// A number that the peer answered with.
    SomeValue(u32),
}

} // verus!

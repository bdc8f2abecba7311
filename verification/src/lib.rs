//! Client-side core of a batched post-quantum key-exchange protocol.
//!
//! Given an ordered list of algorithm identifiers, the initiator builds one
//! independent ephemeral exchange per entry, ships all outbound messages to a
//! remote service in a single round trip, validates the batched reply against
//! what was sent, and only then reduces the reply into one shared key per
//! requested algorithm, in request order.

pub mod alg;
pub mod error;
pub mod msg;
pub mod session;
pub mod client;
pub mod laws;

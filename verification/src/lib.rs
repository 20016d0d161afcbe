//! Transport adaptation layer for a length/header-framed binary command
//! protocol client.
//!
//! The adapter owns the protocol codec, a monotonically increasing request-id
//! counter and the inbound state machine.  It assembles inbound bytes into
//! commands, enforces a hard size ceiling on declared payloads, drains
//! outbound frames in first-in first-out order against transport
//! backpressure, and correlates responses to the request that solicited them.
//! Transport I/O itself happens outside this crate: the driving loop asks the
//! adapter what to do next, performs one transport operation, and hands the
//! outcome back.

pub mod codec;
pub mod client;

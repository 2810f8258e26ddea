//! Verified coordination core of a latency-measuring protocol client.
//!
//! The client opens a connection to a remote endpoint (optionally through
//! TLS), negotiates a multiplexed session, and measures round-trip latency
//! with the session's liveness probe. This crate holds the decision logic of
//! that lifecycle — connection planning, the measurement loop, the session
//! driver's state machine, cancellation, and shutdown arbitration — as
//! verified functions over plain values. The asynchronous I/O that feeds
//! events into these functions lives outside the crate.

pub mod cancel;
pub mod config;
pub mod connect;
pub mod coordinator;
pub mod driver;
pub mod outcome;
pub mod rounds;
pub mod traces;

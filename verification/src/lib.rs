//! Core of a live-chat ingestion pipeline for a web video platform.
//!
//! The crate extracts ephemeral session parameters from a video page's
//! markup, processes chat-retrieval responses into a stable message model,
//! and drives the polling loop's state machine.  All transport (HTTP,
//! timers) lives outside this crate; every function here is a pure,
//! verified transform over plain values.

pub mod scan;
pub mod session;
pub mod messages;
pub mod client;
pub mod polling;
pub mod themes;

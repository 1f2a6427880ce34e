//! Per-connection session core for a two-party chat relay.
//!
//! A session owns one client's WebSocket lifecycle: it enforces liveness
//! through heartbeats, negotiates joining a room with a central router, and
//! forwards chat text between the client and that router.  The session logic
//! is a pure state machine: every handler takes plain values (frames, router
//! replies, the current time) and returns the outbound frame, the router
//! request, and the stop decision for that event.  The surrounding transport
//! and router plumbing live outside this crate.

pub mod command;
pub mod heartbeat;
pub mod laws;
pub mod session;
pub mod text;

//! A small publish/subscribe event relay: a per-connection sliding-window
//! rate limiter, a shared in-memory event store keyed by event identifier,
//! a protocol dispatcher for tagged-array frames, and a stub decoder for
//! privileged bridge packets embedded in certain events.

pub mod bridge;
pub mod dispatch;
pub mod event;
pub mod jsonio;
pub mod limiter;
pub mod roles;
pub mod store;
pub mod wire;

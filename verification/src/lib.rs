//! A real-time message relay: a binary wire codec for chat messages, a
//! per-connection state machine that turns decoded messages into broadcast
//! events, and a bounded, lossy, multi-subscriber broadcast hub.

pub mod chat;
pub mod codec;
pub mod hub;
pub mod message;
pub mod task;

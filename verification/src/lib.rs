//! Client-side core for a real-time event gateway: configuration pipeline,
//! envelope codec, heartbeat scheduling, and the session state machine that
//! drives connect / steady-state / reconnect transitions.

pub mod bootstrap;
pub mod channel;
pub mod codec;
pub mod config;
pub mod heartbeat;
pub mod jsonval;
pub mod session;
pub mod strutil;

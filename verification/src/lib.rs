//! Core library of a terminal chat client for a federated messaging
//! platform.
//!
//! The centrepiece is the real-time gateway protocol client: frame codec,
//! session state, heartbeat supervision, the connection state machine,
//! outbound command queueing, event dispatch and derived typing-indicator
//! state.  Around it stand the pure data-transformation services of the
//! client: markdown parsing, search-query parsing, identity resolution and
//! the client-identity header.

pub mod strutil;
pub mod timeutil;
pub mod jsonenc;
pub mod client_identity;
pub mod entities;
pub mod identity;
pub mod search;
pub mod commands;
pub mod errors;
pub mod session;
pub mod heartbeat;
pub mod backoff;
pub mod machine;
pub mod typing;
pub mod laws;
pub mod dispatcher;
pub mod markdown;
pub mod switcher;
pub mod dto;
pub mod notify;
pub mod ui_state;
pub mod color;
pub mod codec;

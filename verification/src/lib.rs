//! The decision logic of a debug adapter for ink! contracts.

pub mod breakpoints;
pub mod handler;
pub mod json;
pub mod json_text;
pub mod launch;
pub mod laws;
pub mod log_channel;
pub mod log_sender;
pub mod number;
pub mod protocol;
pub mod sandbox;
pub mod state;
pub mod text;

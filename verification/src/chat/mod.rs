//! The chat extension: a message bus with claims for concurrent subagents.
pub mod bus;
pub mod client;
pub mod laws;
pub mod reading_laws;
pub mod tools;

//! A command-line session with the assistant.
pub mod commands;
pub mod answer_laws;
pub mod dialog;
pub mod extension;
pub mod extension_laws;
pub mod history;
pub mod input_laws;
pub mod interrupt;
pub mod laws;
pub mod message;
pub mod notify;
pub mod notify_laws;
pub mod plan;
pub mod prompt_command;
pub mod prompt_laws;
pub mod prompts;
pub mod response;
pub mod state;
pub mod tools;
pub mod turn_laws;

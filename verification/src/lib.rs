//! The decision logic of a coding assistant's session, its speech input and
//! the message bus its subagents share.
pub mod audio;
pub mod audio_laws;
pub mod base64_text;
pub mod chat;
pub mod json;
pub mod json_laws;
pub mod session;
pub mod string_map;
pub mod stt;
pub mod text;
pub mod text_laws;
pub mod time;
pub mod time_laws;

//! Speech recognition on this machine.
use crate::text;
use vstd::prelude::*;

pub mod decode;
pub mod download;
pub mod download_laws;
pub mod local;
pub mod local_laws;
pub mod punctuation;
pub mod punctuation_laws;
pub mod speech_laws;
pub mod transcriber;

verus! {

/// Why speech is not recognised.
#[derive(Debug)]
pub enum Error {
    ModelLoad(String),
    AudioDecode(String),
    Transcribe(String),
    UnsupportedFormat(String),
    Io(String),
}

/// What is said of an error.
pub open spec fn error_text(e: Error) -> Seq<char> {
    match e {
        Error::ModelLoad(why) => "Failed to load model: "@ + why@,
        Error::AudioDecode(why) => "Failed to decode audio: "@ + why@,
        Error::Transcribe(why) => "Failed to transcribe: "@ + why@,
        Error::UnsupportedFormat(why) => "Unsupported audio format: "@ + why@,
        Error::Io(why) => "IO error: "@ + why@,
    }
}

impl Error {
    /// What is said of the error.
    pub fn message(&self) -> (r: String)
        ensures
            r@ == error_text(*self),
    {
        match self {
            Error::ModelLoad(why) => text::concat("Failed to load model: ", why.as_str()),
            Error::AudioDecode(why) => text::concat("Failed to decode audio: ", why.as_str()),
            Error::Transcribe(why) => text::concat("Failed to transcribe: ", why.as_str()),
            Error::UnsupportedFormat(why) => text::concat(
                "Unsupported audio format: ",
                why.as_str(),
            ),
            Error::Io(why) => text::concat("IO error: ", why.as_str()),
        }
    }
}

} // verus!

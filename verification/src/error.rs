//! Error kinds of the application, each with the message it is shown as.

use vstd::prelude::*;
use crate::text::str_concat;

verus! {

/// What went wrong, with a detail text.
#[derive(Debug, Clone)]
pub enum VyomError {
    MpdConnection(String),
    ConfigParse(String),
    AudioPipeline(String),
    LyricsFetch(String),
    ArtworkFetch(String),
    PlayerCommand(String),
}

/// The message of an error: a fixed text for its kind, then the detail.
pub open spec fn error_message(e: VyomError) -> Seq<char> {
    match e {
        VyomError::MpdConnection(s) => "MPD connection failed: "@ + s@,
        VyomError::ConfigParse(s) => "Config parse error: "@ + s@,
        VyomError::AudioPipeline(s) => "Audio pipeline error: "@ + s@,
        VyomError::LyricsFetch(s) => "Lyrics fetch failed: "@ + s@,
        VyomError::ArtworkFetch(s) => "Artwork fetch failed: "@ + s@,
        VyomError::PlayerCommand(s) => "Player command failed: "@ + s@,
    }
}

impl VyomError {
    /// The message that the error is shown as.
    pub fn message(&self) -> (r: String)
        ensures
            r@ == error_message(*self),
    {
        match self {
            VyomError::MpdConnection(s) => str_concat("MPD connection failed: ", s.as_str()),
            VyomError::ConfigParse(s) => str_concat("Config parse error: ", s.as_str()),
            VyomError::AudioPipeline(s) => str_concat("Audio pipeline error: ", s.as_str()),
            VyomError::LyricsFetch(s) => str_concat("Lyrics fetch failed: ", s.as_str()),
            VyomError::ArtworkFetch(s) => str_concat("Artwork fetch failed: ", s.as_str()),
            VyomError::PlayerCommand(s) => str_concat("Player command failed: ", s.as_str()),
        }
    }
}

} // verus!

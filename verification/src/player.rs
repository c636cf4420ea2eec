//! Playback state shared by every player back end.

use vstd::prelude::*;

verus! {

/// Whether something is playing.
#[derive(Debug, Clone, Copy, PartialEq, Eq, Structural)]
pub enum PlayerState {
    Playing,
    Paused,
    Stopped,
}

/// Repeat setting of a player.
#[derive(Debug, Clone, Copy, PartialEq, Eq, Structural)]
pub enum RepeatMode {
    Off,
    Playlist,
    Single,
}

impl Default for RepeatMode {
    fn default() -> (m: Self)
        ensures
            m == RepeatMode::Off,
    {
        RepeatMode::Off
    }
}

/// The mode that the repeat key switches to: off, then the whole
/// playlist, then a single song, then off again.
pub open spec fn next_repeat(m: RepeatMode) -> RepeatMode {
    match m {
        RepeatMode::Off => RepeatMode::Playlist,
        RepeatMode::Playlist => RepeatMode::Single,
        RepeatMode::Single => RepeatMode::Off,
    }
}

/// The repeat and single flags of a music daemon that give a mode.
pub open spec fn repeat_flags(m: RepeatMode) -> (bool, bool) {
    match m {
        RepeatMode::Off => (false, false),
        RepeatMode::Playlist => (true, false),
        RepeatMode::Single => (true, true),
    }
}

impl RepeatMode {
    /// The mode that the repeat key switches to.
    pub fn next(self) -> (m: Self)
        ensures
            m == next_repeat(self),
    {
        match self {
            RepeatMode::Off => RepeatMode::Playlist,
            RepeatMode::Playlist => RepeatMode::Single,
            RepeatMode::Single => RepeatMode::Off,
        }
    }

    /// The repeat and single flags of a music daemon that give this mode.
    pub fn flags(self) -> (r: (bool, bool))
        ensures
            r == repeat_flags(self),
    {
        match self {
            RepeatMode::Off => (false, false),
            RepeatMode::Playlist => (true, false),
            RepeatMode::Single => (true, true),
        }
    }

    /// The mode that the repeat and single flags of a music daemon stand for.
    pub fn from_flags(repeat: bool, single: bool) -> (m: Self)
        ensures
            m == (if single && repeat {
                RepeatMode::Single
            } else if repeat {
                RepeatMode::Playlist
            } else {
                RepeatMode::Off
            }),
    {
        if single && repeat {
            RepeatMode::Single
        } else if repeat {
            RepeatMode::Playlist
        } else {
            RepeatMode::Off
        }
    }
}

/// The track that a player reports.
#[derive(Debug, Clone)]
pub struct TrackInfo {
    pub name: String,
    pub artist: String,
    pub album: String,
    pub artwork_url: Option<String>,
    pub duration_ms: u64,
    pub position_ms: u64,
    pub state: PlayerState,
    /// Where the track plays: "Spotify", "Music" or "MPD".
    pub source: String,
    pub codec: Option<String>,
    /// In kbps.
    pub bitrate: Option<u32>,
    /// In Hz.
    pub sample_rate: Option<u32>,
    pub bit_depth: Option<u8>,
    /// File of the track, where artwork can be read from.
    pub file_path: Option<String>,
    /// 0 to 100.
    pub volume: Option<u32>,
}

} // verus!

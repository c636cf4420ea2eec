//! Players controlled through the operating system (Spotify and Music by
//! script), the stand-in player of other systems, and the choice of back end.

use vstd::prelude::*;
use crate::text::{chars_of, split, split_on, trim, trim_str, string_of, seq_eq, replace, replace_all, parse_uint, parse_unsigned, views, str_eq};
use crate::player::PlayerState;
use crate::mpd::{MpdPlayer, opt_view};
use crate::config::{Args, UserConfig};

verus! {

/// The Spotify application.
pub struct SpotifyController;

/// The Music application.
pub struct MusicController;

/// The media applications of the desktop, driven by script.
pub struct MacOsPlayer {
    pub spotify: SpotifyController,
    pub music: MusicController,
}

impl MacOsPlayer {
    pub fn new() -> (p: Self) {
        MacOsPlayer { spotify: SpotifyController, music: MusicController }
    }
}

/// The player of systems without a scriptable media application: it plays
/// nothing and does nothing.
pub struct DummyPlayer;

/// A desktop media application.
#[derive(Debug, Clone, Copy, PartialEq, Eq, Structural)]
pub enum MediaApp {
    Spotify,
    Music,
}

/// The application to control: Spotify where it runs, else Music where it
/// runs, else none.
pub fn detect_active_player(spotify_running: bool, music_running: bool) -> (r: Option<MediaApp>)
    ensures
        r == (if spotify_running {
            Some(MediaApp::Spotify)
        } else if music_running {
            Some(MediaApp::Music)
        } else {
            None
        }),
{
    if spotify_running {
        Some(MediaApp::Spotify)
    } else if music_running {
        Some(MediaApp::Music)
    } else {
        None
    }
}

/// What a media application's script reports of its track, with the two
/// numbers still as text: the length and the position, which are decimal
/// numbers (a `,` decimal mark is already turned into `.` in the position).
#[derive(Debug, Clone)]
pub struct ScriptTrack {
    pub name: String,
    pub artist: String,
    pub album: String,
    pub duration_text: String,
    pub position_text: String,
    pub state: PlayerState,
    pub artwork_url: Option<String>,
    pub volume: u32,
    pub source: String,
}

/// The player state that a script reports.
pub open spec fn script_state(s: Seq<char>) -> PlayerState {
    if s == "playing"@ {
        PlayerState::Playing
    } else if s == "paused"@ {
        PlayerState::Paused
    } else {
        PlayerState::Stopped
    }
}

/// The track fields of a script's output: `None` where the player stopped or
/// the output has fewer than seven `|||`-separated fields. An eighth field is
/// the volume (0 where it does not parse or is missing); the seventh is the
/// artwork address unless it is empty or `NONE`, where `with_artwork` holds.
pub open spec fn script_fields(out: Seq<char>, with_artwork: bool) -> Option<(Seq<Seq<char>>, PlayerState, Option<Seq<char>>, u32)> {
    if trim(out) == "STOPPED"@ {
        None
    } else {
        let parts = split(out, "|||"@);
        if parts.len() < 7 {
            None
        } else {
            Some((
                parts,
                script_state(parts[5]),
                if with_artwork && parts[6].len() > 0 && parts[6] != "NONE"@ {
                    Some(parts[6])
                } else {
                    None
                },
                if parts.len() >= 8 {
                    match parse_unsigned(parts[7], u32::MAX as nat) {
                        Some(v) => v as u32,
                        None => 0u32,
                    }
                } else {
                    0u32
                },
            ))
        }
    }
}

/// The fields of a script's output (see `script_fields`).
fn parse_script_output(output: &str, app_name: &str, with_artwork: bool) -> (r: Option<ScriptTrack>)
    ensures
        match script_fields(output@, with_artwork) {
            None => r is None,
            Some((parts, state, art, vol)) => r matches Some(t) && {
                &&& t.name@ == parts[0]
                &&& t.artist@ == parts[1]
                &&& t.album@ == parts[2]
                &&& t.duration_text@ == parts[3]
                &&& t.position_text@ == replace(parts[4], ","@, "."@)
                &&& t.state == state
                &&& opt_view(t.artwork_url) == art
                &&& t.volume == vol
                &&& t.source@ == app_name@
            },
        },
{
    let t = trim_str(output);
    let stopped = chars_of("STOPPED");
    if seq_eq(&t, &stopped) {
        return None;
    }
    let text = chars_of(output);
    let sep = chars_of("|||");
    proof {
        reveal_strlit("|||");
        assert(sep@.len() == 3);
    }
    let parts = split_on(&text, &sep);
    if parts.len() < 7 {
        return None;
    }
    proof {
        assert forall|k: int| 0 <= k < parts.len() implies views(parts@)[k] == (#[trigger] parts@[k])@ by {}
    }
    let comma = chars_of(",");
    let dot = chars_of(".");
    proof {
        reveal_strlit(",");
        assert(comma@.len() == 1);
    }
    let state_text = string_of(&parts[5]);
    let state = if str_eq(state_text.as_str(), "playing") {
        PlayerState::Playing
    } else if str_eq(state_text.as_str(), "paused") {
        PlayerState::Paused
    } else {
        PlayerState::Stopped
    };
    let art_text = string_of(&parts[6]);
    let artwork_url = if with_artwork && parts[6].len() > 0 && !str_eq(art_text.as_str(), "NONE") {
        Some(art_text)
    } else {
        None
    };
    let volume: u32 = if parts.len() >= 8 {
        match parse_uint(&parts[7], 4294967295u64) {
            Some(v) => v as u32,
            None => 0,
        }
    } else {
        0
    };
    Some(ScriptTrack {
        name: string_of(&parts[0]),
        artist: string_of(&parts[1]),
        album: string_of(&parts[2]),
        duration_text: string_of(&parts[3]),
        position_text: string_of(&replace_all(&parts[4], &comma, &dot)),
        state,
        artwork_url,
        volume,
        source: app_name.to_owned(),
    })
}

impl MacOsPlayer {
    /// The track that the Spotify or Music script reports, with its artwork
    /// address where there is one.
    pub fn parse_player_output(output: &str, app_name: &str) -> (r: Option<ScriptTrack>)
        ensures
            match script_fields(output@, true) {
                None => r is None,
                Some((parts, state, art, vol)) => r matches Some(t) && {
                    &&& t.name@ == parts[0]
                    &&& t.artist@ == parts[1]
                    &&& t.album@ == parts[2]
                    &&& t.duration_text@ == parts[3]
                    &&& t.position_text@ == replace(parts[4], ","@, "."@)
                    &&& t.state == state
                    &&& opt_view(t.artwork_url) == art
                    &&& t.volume == vol
                    &&& t.source@ == app_name@
                },
            },
    {
        parse_script_output(output, app_name, true)
    }
}

/// The track that the Music script reports; Music gives no artwork address.
pub fn parse_music_output(output: &str) -> (r: Option<ScriptTrack>)
    ensures
        match script_fields(output@, false) {
            None => r is None,
            Some((parts, state, art, vol)) => r matches Some(t) && {
                &&& t.name@ == parts[0]
                &&& t.artist@ == parts[1]
                &&& t.album@ == parts[2]
                &&& t.duration_text@ == parts[3]
                &&& t.position_text@ == replace(parts[4], ","@, "."@)
                &&& t.state == state
                &&& t.artwork_url is None
                &&& t.volume == vol
                &&& t.source@ == "Music"@
            },
        },
{
    parse_script_output(output, "Music", false)
}

/// The back end that the command line asks for.
pub enum PlayerChoice {
    /// The music daemon at these settings.
    Mpd(MpdPlayer),
    /// The desktop media applications (or the stand-in where there are none).
    Native,
}

/// Chooses the back end: the music daemon unless the controller mode was
/// asked for.
pub struct PlayerFactory;

impl PlayerFactory {
    pub fn create(args: &Args, user_config: &UserConfig) -> (r: PlayerChoice)
        ensures
            !args.controller ==> (r matches PlayerChoice::Mpd(p) && p.host == args.mpd_host && p.port == args.mpd_port
                && p.music_directory == user_config.music_directory),
            args.controller ==> r is Native,
    {
        if !args.controller {
            PlayerChoice::Mpd(MpdPlayer::new(args.mpd_host.clone(), args.mpd_port, user_config.music_directory.clone()))
        } else {
            PlayerChoice::Native
        }
    }
}

/// `true` or `false` as script text.
pub open spec fn bool_text(b: bool) -> Seq<char> {
    if b {
        "true"@
    } else {
        "false"@
    }
}

fn bool_string(b: bool) -> (r: String)
    ensures
        r@ == bool_text(b),
{
    if b {
        "true".to_owned()
    } else {
        "false".to_owned()
    }
}

/// The script that sets the repeat mode of an application. Spotify knows
/// only repeat on or off, so a single song is repeated as the playlist is.
pub open spec fn repeat_script_text(app: MediaApp, mode: crate::player::RepeatMode) -> Seq<char> {
    match app {
        MediaApp::Spotify => "tell application \"Spotify\" to set repeating to "@ + bool_text(
            mode != crate::player::RepeatMode::Off,
        ),
        MediaApp::Music => "tell application \"Music\" to set song repeat to "@ + match mode {
            crate::player::RepeatMode::Off => "off"@,
            crate::player::RepeatMode::Playlist => "all"@,
            crate::player::RepeatMode::Single => "one"@,
        },
    }
}

/// The script that sets the repeat mode (see `repeat_script_text`).
pub fn repeat_script(app: MediaApp, mode: crate::player::RepeatMode) -> (r: String)
    ensures
        r@ == repeat_script_text(app, mode),
{
    match app {
        MediaApp::Spotify => {
            let on = match mode {
                crate::player::RepeatMode::Off => false,
                _ => true,
            };
            crate::text::str_concat("tell application \"Spotify\" to set repeating to ", bool_string(on).as_str())
        },
        MediaApp::Music => {
            let val = match mode {
                crate::player::RepeatMode::Off => "off",
                crate::player::RepeatMode::Playlist => "all",
                crate::player::RepeatMode::Single => "one",
            };
            crate::text::str_concat("tell application \"Music\" to set song repeat to ", val)
        },
    }
}

/// The script that turns shuffling on or off.
pub fn shuffle_script(app: MediaApp, enable: bool) -> (r: String)
    ensures
        r@ == (match app {
            MediaApp::Spotify => "tell application \"Spotify\" to set shuffling to "@,
            MediaApp::Music => "tell application \"Music\" to set shuffle enabled to "@,
        }) + bool_text(enable),
{
    let head = match app {
        MediaApp::Spotify => "tell application \"Spotify\" to set shuffling to ",
        MediaApp::Music => "tell application \"Music\" to set shuffle enabled to ",
    };
    crate::text::str_concat(head, bool_string(enable).as_str())
}

/// The repeat mode that an application's script answer stands for: Spotify
/// answers `true` for repeating (taken as the playlist), Music answers `one`,
/// `all` or `off`.
pub fn repeat_from_output(app: MediaApp, output: &str) -> (r: crate::player::RepeatMode)
    ensures
        r == (match app {
            MediaApp::Spotify => if output@ == "true"@ {
                crate::player::RepeatMode::Playlist
            } else {
                crate::player::RepeatMode::Off
            },
            MediaApp::Music => if output@ == "one"@ {
                crate::player::RepeatMode::Single
            } else if output@ == "all"@ {
                crate::player::RepeatMode::Playlist
            } else {
                crate::player::RepeatMode::Off
            },
        }),
{
    match app {
        MediaApp::Spotify => if str_eq(output, "true") {
            crate::player::RepeatMode::Playlist
        } else {
            crate::player::RepeatMode::Off
        },
        MediaApp::Music => if str_eq(output, "one") {
            crate::player::RepeatMode::Single
        } else if str_eq(output, "all") {
            crate::player::RepeatMode::Playlist
        } else {
            crate::player::RepeatMode::Off
        },
    }
}

} // verus!

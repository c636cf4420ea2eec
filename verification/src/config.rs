//! The command line and the user's configuration file.

use vstd::prelude::*;
use crate::keys::KeyConfig;
use crate::mpd::{home_dir, opt_view};
use crate::text::{str_concat, string_of};
use crate::view::{decimal, decimal_chars};
use crate::mpd::string_views;
use crate::error::{error_message, VyomError};

verus! {

/// The command line.
#[derive(Debug, Clone)]
pub struct Args {
    /// Run inside a tmux split (set by the program itself).
    pub standalone: bool,
    /// Start in the small player layout.
    pub mini: bool,
    /// Control the desktop media applications instead of the music daemon.
    pub controller: bool,
    pub mpd_host: String,
    pub mpd_port: u16,
    /// Print the default configuration file.
    pub generate_config: bool,
}

/// The user's configuration file.
#[derive(Debug, Clone)]
pub struct UserConfig {
    pub keys: KeyConfig,
    pub music_directory: String,
}

/// The default music folder: `Music` in the home folder, or in the working
/// folder where there is no home folder.
pub open spec fn default_music_directory(home: Option<Seq<char>>) -> Seq<char> {
    match home {
        Some(h) => h + "/Music"@,
        None => "."@ + "/Music"@,
    }
}

/// The default music folder for a home folder as found.
pub fn music_directory_for(home: Option<String>) -> (r: String)
    ensures
        r@ == default_music_directory(opt_view(home)),
{
    match home {
        Some(h) => str_concat(h.as_str(), "/Music"),
        None => str_concat(".", "/Music"),
    }
}

impl Default for UserConfig {
    /// The default key bindings, and `Music` in the home folder.
    fn default() -> (c: Self)
        ensures
            c.keys.quit@ == "q"@,
            c.keys.play_pause@ == "Space"@,
            c.music_directory@.len() >= 6,
            c.music_directory@.subrange(c.music_directory@.len() - 6, c.music_directory@.len() as int) == "/Music"@,
            exists|home: Option<Seq<char>>| c.music_directory@ == #[trigger] default_music_directory(home),
    {
        let home = home_dir();
        let music_directory = music_directory_for(home);
        proof {
            let h = opt_view(home);
            assert(music_directory@ == default_music_directory(h));
        }
        proof {
            reveal_strlit("/Music");
        }
        UserConfig { keys: KeyConfig::default(), music_directory }
    }
}

/// The arguments of the `tmux` command that opens the interface in a new
/// pane beside the current one: only inside tmux, only for the full
/// interface, and not from the pane that such a command opened.
pub open spec fn split_args(args: Args, exe_path: Seq<char>, in_tmux: bool, want_lyrics: bool) -> Option<Seq<Seq<char>>> {
    if in_tmux && !args.standalone && want_lyrics {
        let head = seq!["split-window"@, "-h"@, "-p"@, "20"@, exe_path, "--standalone"@];
        Some(
            if args.controller {
                head.push("--controller"@)
            } else {
                head + seq!["--mpd-host"@, args.mpd_host@, "--mpd-port"@, decimal(args.mpd_port as nat)]
            },
        )
    } else {
        None
    }
}

/// The arguments of the `tmux` command that splits the window (see
/// `split_args`); `None` where no split is made.
pub fn tmux_split_args(args: &Args, exe_path: &str, in_tmux: bool, want_lyrics: bool) -> (r: Option<Vec<String>>)
    ensures
        match split_args(*args, exe_path@, in_tmux, want_lyrics) {
            Some(v) => r matches Some(w) && string_views(w@) == v,
            None => r is None,
        },
{
    if !(in_tmux && !args.standalone && want_lyrics) {
        return None;
    }
    let mut v: Vec<String> = Vec::new();
    v.push("split-window".to_owned());
    v.push("-h".to_owned());
    v.push("-p".to_owned());
    v.push("20".to_owned());
    v.push(exe_path.to_owned());
    v.push("--standalone".to_owned());
    let ghost head = seq!["split-window"@, "-h"@, "-p"@, "20"@, exe_path@, "--standalone"@];
    assert(string_views(v@) =~= head);
    if args.controller {
        v.push("--controller".to_owned());
        assert(string_views(v@) =~= head.push("--controller"@));
    } else {
        v.push("--mpd-host".to_owned());
        v.push(args.mpd_host.clone());
        v.push("--mpd-port".to_owned());
        v.push(string_of(&decimal_chars(args.mpd_port as u64)));
        assert(string_views(v@) =~= head + seq!["--mpd-host"@, args.mpd_host@, "--mpd-port"@, decimal(args.mpd_port as nat)]);
    }
    Some(v)
}

/// What reading the configuration file gave.
#[derive(Debug)]
pub enum ConfigRead {
    /// There is no configuration file.
    Missing,
    /// The file is there but could not be read.
    Unreadable,
    /// The file was read and parsed.
    Parsed,
    /// The file was read but is not a valid configuration; the parser's
    /// message.
    Malformed(String),
}

/// What to start with.
#[derive(Debug)]
pub enum ConfigPlan {
    /// The configuration read from the file.
    UseFile,
    /// The defaults, written out as the new configuration file.
    WriteDefaults,
    /// The defaults, leaving the file as it is.
    UseDefaults,
    /// The defaults, with a message about the malformed file.
    DefaultsWithProblem(String),
}

/// The configuration to start with: the file's where it parses; the
/// defaults otherwise, written out where there was no file, and with the
/// parse error shown where the file is malformed.
pub fn config_plan(read: ConfigRead) -> (r: ConfigPlan)
    ensures
        match read {
            ConfigRead::Missing => r is WriteDefaults,
            ConfigRead::Unreadable => r is UseDefaults,
            ConfigRead::Parsed => r is UseFile,
            ConfigRead::Malformed(e) => r matches ConfigPlan::DefaultsWithProblem(m) && m@ == error_message(
                VyomError::ConfigParse(e),
            ),
        },
{
    match read {
        ConfigRead::Missing => ConfigPlan::WriteDefaults,
        ConfigRead::Unreadable => ConfigPlan::UseDefaults,
        ConfigRead::Parsed => ConfigPlan::UseFile,
        ConfigRead::Malformed(e) => ConfigPlan::DefaultsWithProblem(VyomError::ConfigParse(e).message()),
    }
}

/// Where the state between runs comes from.
#[derive(Debug, Clone, Copy, PartialEq, Eq, Structural)]
pub enum StatePlan {
    /// The state file.
    UseFile,
    /// The state kept in the configuration file by older versions, saved to
    /// the state file from now on.
    TakeOverLegacy,
    /// The defaults.
    UseDefaults,
}

/// The state to start with: the state file where there is one (the
/// defaults where it does not parse); without one, the state that an older
/// version kept in the configuration file, where that parses.
pub fn state_plan(state_file_exists: bool, state_parsed: bool, legacy_parsed: bool) -> (r: StatePlan)
    ensures
        r == (if state_file_exists {
            if state_parsed {
                StatePlan::UseFile
            } else {
                StatePlan::UseDefaults
            }
        } else if legacy_parsed {
            StatePlan::TakeOverLegacy
        } else {
            StatePlan::UseDefaults
        }),
{
    if state_file_exists {
        if state_parsed {
            StatePlan::UseFile
        } else {
            StatePlan::UseDefaults
        }
    } else if legacy_parsed {
        StatePlan::TakeOverLegacy
    } else {
        StatePlan::UseDefaults
    }
}

/// The volume of a first start, 0 to 100.
pub fn default_volume() -> (r: u8)
    ensures
        r == 50,
{
    50
}

} // verus!

//! Key bindings: each action is bound to a key name such as `"q"`, `"Space"`
//! or `"BackTab"`, and a key press matches a name by the rules of `key_matches`.

use vstd::prelude::*;
use crate::text::{chars_of, str_eq, ascii_lower, is_ascii_upper};

verus! {

/// The key of a key press.
#[derive(Debug, Clone, Copy, PartialEq, Eq, Structural)]
pub enum KeyCode {
    Char(char),
    Enter,
    Backspace,
    Esc,
    Tab,
    BackTab,
    Up,
    Down,
    Left,
    Right,
    /// Any other key (function keys, Home, End, ...).
    Other,
}

/// The modifier keys held during a key press.
#[derive(Debug, Clone, Copy, PartialEq, Eq, Structural)]
pub struct KeyModifiers {
    pub shift: bool,
    pub control: bool,
    pub alt: bool,
}

impl KeyModifiers {
    pub fn none() -> (m: Self)
        ensures
            !m.shift && !m.control && !m.alt,
    {
        KeyModifiers { shift: false, control: false, alt: false }
    }

    pub fn shift() -> (m: Self)
        ensures
            m.shift && !m.control && !m.alt,
    {
        KeyModifiers { shift: true, control: false, alt: false }
    }
}

/// A key press.
#[derive(Debug, Clone, Copy, PartialEq, Eq, Structural)]
pub struct KeyEvent {
    pub code: KeyCode,
    pub modifiers: KeyModifiers,
}

impl KeyEvent {
    pub fn new(code: KeyCode, modifiers: KeyModifiers) -> (e: Self)
        ensures
            e.code == code,
            e.modifiers == modifiers,
    {
        KeyEvent { code, modifiers }
    }
}

/// Whether the key press `ev` matches the key name `name`: the special names
/// stand for their keys, a name of one ASCII character stands for that
/// character (an upper-case letter also for its lower-case letter with Shift),
/// and any other name matches nothing.
#[verifier::opaque]
pub open spec fn key_matches(ev: KeyEvent, name: Seq<char>) -> bool {
    if name == "Space"@ {
        ev.code == KeyCode::Char(' ')
    } else if name == "Enter"@ {
        ev.code == KeyCode::Enter
    } else if name == "Backspace"@ {
        ev.code == KeyCode::Backspace
    } else if name == "Esc"@ {
        ev.code == KeyCode::Esc
    } else if name == "Tab"@ {
        ev.code == KeyCode::Tab
    } else if name == "BackTab"@ {
        ev.code == KeyCode::BackTab
    } else if name == "Up"@ {
        ev.code == KeyCode::Up
    } else if name == "Down"@ {
        ev.code == KeyCode::Down
    } else if name == "Left"@ {
        ev.code == KeyCode::Left
    } else if name == "Right"@ {
        ev.code == KeyCode::Right
    } else if name.len() == 1 && (name[0] as u32) < 128 {
        let ch = name[0];
        if is_ascii_upper(ch) {
            ev.code == KeyCode::Char(ch) || (ev.code == KeyCode::Char(ascii_lower(ch))
                && ev.modifiers.shift)
        } else {
            ev.code == KeyCode::Char(ch)
        }
    } else {
        false
    }
}

/// The name under which a key name is shown to the user.
pub open spec fn key_display(name: Seq<char>) -> Seq<char> {
    if name == "Space"@ {
        "Space"@
    } else if name == "Up"@ {
        "\u{2191}"@
    } else if name == "Down"@ {
        "\u{2193}"@
    } else if name == "Left"@ {
        "\u{2190}"@
    } else if name == "Right"@ {
        "\u{2192}"@
    } else if name == "BackTab"@ {
        "S-Tab"@
    } else if name == "Backspace"@ {
        "Bksp"@
    } else {
        name
    }
}

/// The key name bound to each action.
#[derive(Debug, Clone)]
pub struct KeyConfig {
    pub quit: String,
    pub play_pause: String,
    pub next_track: String,
    pub prev_track: String,
    pub volume_up: String,
    pub volume_down: String,
    pub toggle_keyhints: String,
    pub toggle_audio_info: String,
    pub search_global: String,
    pub view_lyrics: String,
    pub view_visualizer: String,
    pub view_library: String,
    pub view_eq: String,
    pub cycle_art: String,
    pub seek_forward: String,
    pub seek_backward: String,
    pub nav_up: String,
    pub nav_up_alt: String,
    pub nav_down: String,
    pub nav_down_alt: String,
    pub nav_left: String,
    pub nav_left_alt: String,
    pub nav_right: String,
    pub nav_right_alt: String,
    pub enter_dir: String,
    pub back_dir: String,
    pub back_dir_alt: String,
    pub add_to_queue: String,
    pub save_playlist: String,
    pub rename_playlist: String,
    pub delete_item: String,
    pub edit_tags: String,
    pub move_down: String,
    pub move_up: String,
    pub tab_next: String,
    pub tab_prev: String,
    pub seek_to_line: String,
    pub band_next: String,
    pub band_prev: String,
    pub gain_up: String,
    pub gain_down: String,
    pub toggle_eq: String,
    pub reset_eq: String,
    pub reset_levels: String,
    pub next_preset: String,
    pub prev_preset: String,
    pub save_preset: String,
    pub delete_preset: String,
    pub preamp_up: String,
    pub preamp_down: String,
    pub balance_right: String,
    pub balance_left: String,
    pub crossfade: String,
    pub replay_gain: String,
    pub device_next: String,
    pub device_prev: String,
    pub shuffle: String,
    pub repeat: String,
}

/// The key bindings of a first start.
pub open spec fn default_bindings(c: KeyConfig) -> bool {
    &&& c.quit@ == "q"@
    &&& c.play_pause@ == "Space"@
    &&& c.next_track@ == "n"@
    &&& c.prev_track@ == "p"@
    &&& c.volume_up@ == "+"@
    &&& c.volume_down@ == "-"@
    &&& c.toggle_keyhints@ == "?"@
    &&& c.toggle_audio_info@ == "i"@
    &&& c.search_global@ == "/"@
    &&& c.view_lyrics@ == "1"@
    &&& c.view_visualizer@ == "2"@
    &&& c.view_library@ == "3"@
    &&& c.view_eq@ == "4"@
    &&& c.cycle_art@ == "A"@
    &&& c.seek_forward@ == "l"@
    &&& c.seek_backward@ == "h"@
    &&& c.nav_up@ == "k"@
    &&& c.nav_up_alt@ == "Up"@
    &&& c.nav_down@ == "j"@
    &&& c.nav_down_alt@ == "Down"@
    &&& c.nav_left@ == "h"@
    &&& c.nav_left_alt@ == "Left"@
    &&& c.nav_right@ == "l"@
    &&& c.nav_right_alt@ == "Right"@
    &&& c.enter_dir@ == "Enter"@
    &&& c.back_dir@ == "Backspace"@
    &&& c.back_dir_alt@ == "Esc"@
    &&& c.add_to_queue@ == "a"@
    &&& c.save_playlist@ == "s"@
    &&& c.rename_playlist@ == "r"@
    &&& c.delete_item@ == "d"@
    &&& c.edit_tags@ == "t"@
    &&& c.move_down@ == "J"@
    &&& c.move_up@ == "K"@
    &&& c.tab_next@ == "Tab"@
    &&& c.tab_prev@ == "BackTab"@
    &&& c.seek_to_line@ == "Enter"@
    &&& c.band_next@ == "l"@
    &&& c.band_prev@ == "h"@
    &&& c.gain_up@ == "k"@
    &&& c.gain_down@ == "j"@
    &&& c.toggle_eq@ == "e"@
    &&& c.reset_eq@ == "r"@
    &&& c.reset_levels@ == "0"@
    &&& c.next_preset@ == "Tab"@
    &&& c.prev_preset@ == "BackTab"@
    &&& c.save_preset@ == "S"@
    &&& c.delete_preset@ == "X"@
    &&& c.preamp_up@ == "g"@
    &&& c.preamp_down@ == "G"@
    &&& c.balance_right@ == "b"@
    &&& c.balance_left@ == "B"@
    &&& c.crossfade@ == "c"@
    &&& c.replay_gain@ == "R"@
    &&& c.device_next@ == "d"@
    &&& c.device_prev@ == "D"@
    &&& c.shuffle@ == "z"@
    &&& c.repeat@ == "x"@
}

impl Default for KeyConfig {
    fn default() -> (c: Self)
        ensures
            c.quit@ == "q"@,
            c.play_pause@ == "Space"@,
            c.next_track@ == "n"@,
            c.prev_track@ == "p"@,
            c.volume_up@ == "+"@,
            c.volume_down@ == "-"@,
            c.toggle_keyhints@ == "?"@,
            c.toggle_audio_info@ == "i"@,
            c.search_global@ == "/"@,
            c.view_lyrics@ == "1"@,
            c.view_visualizer@ == "2"@,
            c.view_library@ == "3"@,
            c.view_eq@ == "4"@,
            c.cycle_art@ == "A"@,
            c.seek_forward@ == "l"@,
            c.seek_backward@ == "h"@,
            c.nav_up@ == "k"@,
            c.nav_up_alt@ == "Up"@,
            c.nav_down@ == "j"@,
            c.nav_down_alt@ == "Down"@,
            c.nav_left@ == "h"@,
            c.nav_left_alt@ == "Left"@,
            c.nav_right@ == "l"@,
            c.nav_right_alt@ == "Right"@,
            c.enter_dir@ == "Enter"@,
            c.back_dir@ == "Backspace"@,
            c.back_dir_alt@ == "Esc"@,
            c.add_to_queue@ == "a"@,
            c.save_playlist@ == "s"@,
            c.rename_playlist@ == "r"@,
            c.delete_item@ == "d"@,
            c.edit_tags@ == "t"@,
            c.move_down@ == "J"@,
            c.move_up@ == "K"@,
            c.tab_next@ == "Tab"@,
            c.tab_prev@ == "BackTab"@,
            c.seek_to_line@ == "Enter"@,
            c.band_next@ == "l"@,
            c.band_prev@ == "h"@,
            c.gain_up@ == "k"@,
            c.gain_down@ == "j"@,
            c.toggle_eq@ == "e"@,
            c.reset_eq@ == "r"@,
            c.reset_levels@ == "0"@,
            c.next_preset@ == "Tab"@,
            c.prev_preset@ == "BackTab"@,
            c.save_preset@ == "S"@,
            c.delete_preset@ == "X"@,
            c.preamp_up@ == "g"@,
            c.preamp_down@ == "G"@,
            c.balance_right@ == "b"@,
            c.balance_left@ == "B"@,
            c.crossfade@ == "c"@,
            c.replay_gain@ == "R"@,
            c.device_next@ == "d"@,
            c.device_prev@ == "D"@,
            c.shuffle@ == "z"@,
            c.repeat@ == "x"@,
            default_bindings(c),
    {
        KeyConfig {
            quit: "q".to_owned(),
            play_pause: "Space".to_owned(),
            next_track: "n".to_owned(),
            prev_track: "p".to_owned(),
            volume_up: "+".to_owned(),
            volume_down: "-".to_owned(),
            toggle_keyhints: "?".to_owned(),
            toggle_audio_info: "i".to_owned(),
            search_global: "/".to_owned(),
            view_lyrics: "1".to_owned(),
            view_visualizer: "2".to_owned(),
            view_library: "3".to_owned(),
            view_eq: "4".to_owned(),
            cycle_art: "A".to_owned(),
            seek_forward: "l".to_owned(),
            seek_backward: "h".to_owned(),
            nav_up: "k".to_owned(),
            nav_up_alt: "Up".to_owned(),
            nav_down: "j".to_owned(),
            nav_down_alt: "Down".to_owned(),
            nav_left: "h".to_owned(),
            nav_left_alt: "Left".to_owned(),
            nav_right: "l".to_owned(),
            nav_right_alt: "Right".to_owned(),
            enter_dir: "Enter".to_owned(),
            back_dir: "Backspace".to_owned(),
            back_dir_alt: "Esc".to_owned(),
            add_to_queue: "a".to_owned(),
            save_playlist: "s".to_owned(),
            rename_playlist: "r".to_owned(),
            delete_item: "d".to_owned(),
            edit_tags: "t".to_owned(),
            move_down: "J".to_owned(),
            move_up: "K".to_owned(),
            tab_next: "Tab".to_owned(),
            tab_prev: "BackTab".to_owned(),
            seek_to_line: "Enter".to_owned(),
            band_next: "l".to_owned(),
            band_prev: "h".to_owned(),
            gain_up: "k".to_owned(),
            gain_down: "j".to_owned(),
            toggle_eq: "e".to_owned(),
            reset_eq: "r".to_owned(),
            reset_levels: "0".to_owned(),
            next_preset: "Tab".to_owned(),
            prev_preset: "BackTab".to_owned(),
            save_preset: "S".to_owned(),
            delete_preset: "X".to_owned(),
            preamp_up: "g".to_owned(),
            preamp_down: "G".to_owned(),
            balance_right: "b".to_owned(),
            balance_left: "B".to_owned(),
            crossfade: "c".to_owned(),
            replay_gain: "R".to_owned(),
            device_next: "d".to_owned(),
            device_prev: "D".to_owned(),
            shuffle: "z".to_owned(),
            repeat: "x".to_owned(),
        }
    }
}

impl KeyConfig {
    /// Whether the key press matches the key name.
    pub fn matches(&self, event: KeyEvent, key_str: &str) -> (r: bool)
        ensures
            r == key_matches(event, key_str@),
    {
        reveal(key_matches);
        if str_eq(key_str, "Space") {
            event.code == KeyCode::Char(' ')
        } else if str_eq(key_str, "Enter") {
            event.code == KeyCode::Enter
        } else if str_eq(key_str, "Backspace") {
            event.code == KeyCode::Backspace
        } else if str_eq(key_str, "Esc") {
            event.code == KeyCode::Esc
        } else if str_eq(key_str, "Tab") {
            event.code == KeyCode::Tab
        } else if str_eq(key_str, "BackTab") {
            event.code == KeyCode::BackTab
        } else if str_eq(key_str, "Up") {
            event.code == KeyCode::Up
        } else if str_eq(key_str, "Down") {
            event.code == KeyCode::Down
        } else if str_eq(key_str, "Left") {
            event.code == KeyCode::Left
        } else if str_eq(key_str, "Right") {
            event.code == KeyCode::Right
        } else {
            let cs = chars_of(key_str);
            if cs.len() == 1 && (cs[0] as u32) < 128 {
                let ch = cs[0];
                if 'A' <= ch && ch <= 'Z' {
                    let lower = ((ch as u32) + 32) as u8 as char;
                    assert(lower == ascii_lower(ch));
                    event.code == KeyCode::Char(ch) || (event.code == KeyCode::Char(lower)
                        && event.modifiers.shift)
                } else {
                    event.code == KeyCode::Char(ch)
                }
            } else {
                false
            }
        }
    }

    /// The name under which a key name is shown to the user.
    pub fn display(&self, key_str: &str) -> (r: String)
        ensures
            r@ == key_display(key_str@),
    {
        if str_eq(key_str, "Space") {
            "Space".to_owned()
        } else if str_eq(key_str, "Up") {
            "\u{2191}".to_owned()
        } else if str_eq(key_str, "Down") {
            "\u{2193}".to_owned()
        } else if str_eq(key_str, "Left") {
            "\u{2190}".to_owned()
        } else if str_eq(key_str, "Right") {
            "\u{2192}".to_owned()
        } else if str_eq(key_str, "BackTab") {
            "S-Tab".to_owned()
        } else if str_eq(key_str, "Backspace") {
            "Bksp".to_owned()
        } else {
            key_str.to_owned()
        }
    }
}

} // verus!

//! Keys typed into the popups that take text: the name box (saving or
//! renaming a playlist, saving a preset) and the tag editor. While one of
//! them is open it takes every key.

use vstd::prelude::*;
use crate::keys::KeyCode;
use crate::state::{InputState, InputMode, InputView, InputModeView, TagEditState};
use crate::events::input_view;
use crate::text::{push_char, pop_char, chars_of};

verus! {

/// What the name box asks for when it is confirmed with a name.
#[derive(Debug, Clone, PartialEq, Eq)]
pub enum InputSubmit {
    /// Save the queue as a playlist of this name.
    SavePlaylist(String),
    /// Save the equalizer bands as a preset of this name.
    SavePreset(String),
    /// Rename the playlist `old` to `new`.
    RenamePlaylist { old: String, new: String },
}

/// The view of a confirmed name box: its mode and the name typed.
pub open spec fn submit_view(s: InputSubmit) -> (InputModeView, Seq<char>) {
    match s {
        InputSubmit::SavePlaylist(n) => (InputModeView::PlaylistSave, n@),
        InputSubmit::SavePreset(n) => (InputModeView::EqSave, n@),
        InputSubmit::RenamePlaylist { old, new } => (InputModeView::PlaylistRename(old@), new@),
    }
}

/// The name box after a key: Esc closes it; Enter closes it and confirms a
/// non-empty name; Backspace removes the last character; a character is
/// appended; other keys change nothing.
pub open spec fn input_step(i: InputView, code: KeyCode) -> (Option<InputView>, Option<(InputModeView, Seq<char>)>) {
    match code {
        KeyCode::Esc => (None, None),
        KeyCode::Enter => (None, if i.value.len() > 0 { Some((i.mode, i.value)) } else { None }),
        KeyCode::Backspace => (Some(InputView { value: if i.value.len() > 0 { i.value.drop_last() } else { i.value }, ..i }), None),
        KeyCode::Char(c) => (Some(InputView { value: i.value.push(c), ..i }), None),
        _ => (Some(i), None),
    }
}

/// A key for the open name box (see `input_step`).
pub fn input_box_key(input: &mut Option<InputState>, code: KeyCode) -> (r: Option<InputSubmit>)
    requires
        *old(input) is Some,
    ensures
        ({
            let (next, submit) = input_step((*old(input))->0@, code);
            &&& input_view(*final(input)) == next
            &&& match submit {
                Some(s) => r matches Some(x) && submit_view(x) == s,
                None => r is None,
            }
        }),
{
    match code {
        KeyCode::Esc => {
            *input = None;
            None
        },
        KeyCode::Enter => {
            let taken = input.take();
            match taken {
                Some(st) => {
                    let empty = chars_of(st.value.as_str()).len() == 0;
                    if empty {
                        None
                    } else {
                        match st.mode {
                            InputMode::PlaylistSave => Some(InputSubmit::SavePlaylist(st.value)),
                            InputMode::EqSave => Some(InputSubmit::SavePreset(st.value)),
                            InputMode::PlaylistRename(old) => Some(InputSubmit::RenamePlaylist { old, new: st.value }),
                        }
                    }
                },
                None => None,
            }
        },
        KeyCode::Backspace => {
            match input {
                Some(st) => {
                    let _ = pop_char(&mut st.value);
                },
                None => {},
            }
            None
        },
        KeyCode::Char(c) => {
            match input {
                Some(st) => {
                    push_char(&mut st.value, c);
                },
                None => {},
            }
            None
        },
        _ => None,
    }
}

/// The view of the tag editor: file, title, artist, album, active field.
pub open spec fn tag_view(t: TagEditState) -> (Seq<char>, Seq<char>, Seq<char>, Seq<char>, usize) {
    (t.file_path@, t.title@, t.artist@, t.album@, t.active_field)
}

/// The active field's text changed by `f`.
pub open spec fn edit_active(t: (Seq<char>, Seq<char>, Seq<char>, Seq<char>, usize), f: spec_fn(Seq<char>) -> Seq<char>) -> (Seq<char>, Seq<char>, Seq<char>, Seq<char>, usize) {
    if t.4 == 0 {
        (t.0, f(t.1), t.2, t.3, t.4)
    } else if t.4 == 1 {
        (t.0, t.1, f(t.2), t.3, t.4)
    } else {
        (t.0, t.1, t.2, f(t.3), t.4)
    }
}

/// The text without its last character, if it has one.
pub open spec fn backspace(s: Seq<char>) -> Seq<char> {
    if s.len() > 0 {
        s.drop_last()
    } else {
        s
    }
}

/// The tag editor after a key: Esc closes it; Tab and Shift+Tab move to the
/// next and previous field; Backspace and characters edit the active field;
/// Enter closes it and hands over the tags to write (where a file is set).
pub open spec fn tag_step(t: (Seq<char>, Seq<char>, Seq<char>, Seq<char>, usize), code: KeyCode) -> (
    Option<(Seq<char>, Seq<char>, Seq<char>, Seq<char>, usize)>,
    bool,
) {
    match code {
        KeyCode::Esc => (None, false),
        KeyCode::Tab => (Some((t.0, t.1, t.2, t.3, ((t.4 + 1) % 3) as usize)), false),
        KeyCode::BackTab => (Some((t.0, t.1, t.2, t.3, if t.4 == 0 { 2 } else { (t.4 - 1) as usize })), false),
        KeyCode::Backspace => (Some(edit_active(t, |s: Seq<char>| backspace(s))), false),
        KeyCode::Enter => (None, t.0.len() > 0),
        KeyCode::Char(c) => (Some(edit_active(t, |s: Seq<char>| s.push(c))), false),
        _ => (Some(t), false),
    }
}

/// A key for the open tag editor (see `tag_step`); the tags to write, if
/// any, come back.
pub fn tag_editor_key(tag: &mut Option<TagEditState>, code: KeyCode) -> (r: Option<TagEditState>)
    requires
        *old(tag) matches Some(t) && t.active_field < usize::MAX,
    ensures
        ({
            let (next, save) = tag_step(tag_view((*old(tag))->0), code);
            &&& match next {
                Some(v) => *final(tag) matches Some(t) && tag_view(t) == v,
                None => *final(tag) is None,
            }
            &&& save ==> r == Some((*old(tag))->0)
            &&& !save ==> r is None
        }),
{
    match code {
        KeyCode::Esc => {
            *tag = None;
            None
        },
        KeyCode::Tab => {
            match tag {
                Some(t) => t.next_field(),
                None => {},
            }
            None
        },
        KeyCode::BackTab => {
            match tag {
                Some(t) => t.prev_field(),
                None => {},
            }
            None
        },
        KeyCode::Backspace => {
            match tag {
                Some(t) => {
                    let v = t.active_value();
                    let _ = pop_char(v);
                },
                None => {},
            }
            None
        },
        KeyCode::Char(c) => {
            match tag {
                Some(t) => {
                    let v = t.active_value();
                    push_char(v, c);
                },
                None => {},
            }
            None
        },
        KeyCode::Enter => {
            let taken = tag.take();
            match taken {
                Some(t) => {
                    if chars_of(t.file_path.as_str()).len() > 0 {
                        Some(t)
                    } else {
                        None
                    }
                },
                None => None,
            }
        },
        _ => None,
    }
}

} // verus!

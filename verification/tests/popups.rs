use vyom::keys::KeyCode;
use vyom::popups::{input_box_key, tag_editor_key, InputSubmit};
use vyom::state::{InputMode, InputState, TagEditState};

#[test]
fn test_name_box_typing_and_confirm() {
    let mut input = Some(InputState::new(InputMode::PlaylistSave, "Save", ""));
    assert_eq!(input_box_key(&mut input, KeyCode::Char('a')), None);
    assert_eq!(input_box_key(&mut input, KeyCode::Char('b')), None);
    assert_eq!(input_box_key(&mut input, KeyCode::Backspace), None);
    assert_eq!(input.as_ref().unwrap().value, "a");
    assert_eq!(input_box_key(&mut input, KeyCode::Enter), Some(InputSubmit::SavePlaylist("a".to_string())));
    assert!(input.is_none());
}

#[test]
fn test_name_box_empty_and_escape() {
    let mut input = Some(InputState::new(InputMode::PlaylistRename("old".to_string()), "Rename", ""));
    assert_eq!(input_box_key(&mut input, KeyCode::Backspace), None);
    assert_eq!(input_box_key(&mut input, KeyCode::Enter), None);
    assert!(input.is_none());
    let mut other = Some(InputState::new(InputMode::PlaylistRename("old".to_string()), "Rename", "new"));
    assert_eq!(
        input_box_key(&mut other, KeyCode::Enter),
        Some(InputSubmit::RenamePlaylist { old: "old".to_string(), new: "new".to_string() })
    );
    let mut esc = Some(InputState::new(InputMode::EqSave, "Preset", "x"));
    assert_eq!(input_box_key(&mut esc, KeyCode::Esc), None);
    assert!(esc.is_none());
}

#[test]
fn test_tag_editor_keys() {
    let mut tag = Some(TagEditState::new("a/b.flac", "T", "A", "L"));
    tag_editor_key(&mut tag, KeyCode::Char('x'));
    tag_editor_key(&mut tag, KeyCode::Tab);
    tag_editor_key(&mut tag, KeyCode::Backspace);
    tag_editor_key(&mut tag, KeyCode::BackTab);
    tag_editor_key(&mut tag, KeyCode::BackTab);
    tag_editor_key(&mut tag, KeyCode::Char('!'));
    let t = tag.clone().unwrap();
    assert_eq!((t.title.as_str(), t.artist.as_str(), t.album.as_str(), t.active_field), ("Tx", "", "L!", 2));
    let saved = tag_editor_key(&mut tag, KeyCode::Enter).unwrap();
    assert_eq!(saved.title, "Tx");
    assert!(tag.is_none());
    let mut no_file = Some(TagEditState::new("", "T", "A", "L"));
    assert!(tag_editor_key(&mut no_file, KeyCode::Enter).is_none());
    assert!(no_file.is_none());
}

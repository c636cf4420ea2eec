use vyom::state::{ArtStyle, InputMode, InputState, TagEditState};

#[test]
fn test_tag_editor_fields() {
    let mut t = TagEditState::new("a.flac", "Title", "Artist", "Album");
    assert_eq!(t.active_field, 0);
    t.active_value().push('!');
    assert_eq!(t.title, "Title!");
    t.next_field();
    assert_eq!(t.active_field, 1);
    t.active_value().push('?');
    assert_eq!(t.artist, "Artist?");
    t.next_field();
    t.next_field();
    assert_eq!(t.active_field, 0);
    t.prev_field();
    assert_eq!(t.active_field, 2);
    t.active_value().clear();
    assert_eq!(t.album, "");
}

#[test]
fn test_input_state() {
    let s = InputState::new(InputMode::PlaylistSave, "Save as", "mix");
    assert_eq!(s.title, "Save as");
    assert_eq!(s.value, "mix");
    assert!(matches!(s.mode, InputMode::PlaylistSave));
}

#[test]
fn test_art_style_cycles_through_five() {
    let mut a = ArtStyle::Block;
    let mut seen = vec![a];
    for _ in 0..4 {
        a = a.cycled();
        seen.push(a);
    }
    assert_eq!(seen, vec![ArtStyle::Block, ArtStyle::Ascii, ArtStyle::Braille, ArtStyle::Image, ArtStyle::Off]);
    assert_eq!(a.cycled(), ArtStyle::Block);
}

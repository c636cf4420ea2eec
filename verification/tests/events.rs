use vyom::events::{handle_event, next_tab, prev_tab, toggle_crossfade, Action, TrackStatus, UiState};
use vyom::keys::{KeyCode, KeyConfig, KeyEvent, KeyModifiers};
use vyom::state::{LibraryItem, LibraryItemType, LibraryMode, LyricsState, ViewMode};

fn press(app: &mut UiState, c: KeyCode, track: Option<TrackStatus>, now: u64) -> Option<Action> {
    let keys = KeyConfig::default();
    handle_event(KeyEvent::new(c, KeyModifiers::none()), app, &keys, false, &LyricsState::Idle, track, now)
}

#[test]
fn test_quit_closes_popup_first() {
    let mut app = UiState::new(0, 0, 50);
    assert!(matches!(press(&mut app, KeyCode::Char('?'), None, 0), Some(Action::Done)));
    assert!(app.show_keyhints);
    press(&mut app, KeyCode::Char('q'), None, 0);
    assert!(!app.show_keyhints);
    assert!(app.is_running);
    press(&mut app, KeyCode::Char('q'), None, 0);
    assert!(!app.is_running);
}

#[test]
fn test_view_switch_and_search_key() {
    let mut app = UiState::new(0, 0, 50);
    press(&mut app, KeyCode::Char('2'), None, 0);
    assert_eq!(app.view_mode, ViewMode::Visualizer);
    press(&mut app, KeyCode::Char('/'), None, 0);
    assert_eq!(app.view_mode, ViewMode::Library);
    assert_eq!(app.library_mode, LibraryMode::Search);
    assert!(app.search_active);
    assert_eq!(app.previous_library_mode, Some(LibraryMode::Queue));
}

#[test]
fn test_volume_keys() {
    let mut app = UiState::new(0, 0, 98);
    match press(&mut app, KeyCode::Char('+'), None, 1234) {
        Some(Action::SetVolume(v)) => assert_eq!(v, 100),
        _ => panic!("expected a volume change"),
    }
    assert_eq!(app.app_volume, 100);
    assert_eq!(app.last_volume_ms, Some(1234));
    match press(&mut app, KeyCode::Char('-'), None, 1300) {
        Some(Action::SetVolume(v)) => assert_eq!(v, 95),
        _ => panic!("expected a volume change"),
    }
}

#[test]
fn test_seek_runs_add_up() {
    let mut app = UiState::new(0, 0, 50);
    let t = TrackStatus { position_ms: 10_000, current_ms: 10_000, duration_ms: 60_000, playing: true };
    match press(&mut app, KeyCode::Char('l'), Some(t), 1000) {
        Some(Action::Seek { target_ms, offset_secs }) => {
            assert_eq!(target_ms, 15_000);
            assert_eq!(offset_secs, 5);
        },
        _ => panic!("expected a seek"),
    }
    match press(&mut app, KeyCode::Char('l'), Some(t), 1200) {
        Some(Action::Seek { target_ms, offset_secs }) => {
            assert_eq!(target_ms, 20_000);
            assert_eq!(offset_secs, 10);
        },
        _ => panic!("expected a seek"),
    }
    match press(&mut app, KeyCode::Char('h'), Some(t), 5000) {
        Some(Action::Seek { target_ms, .. }) => assert_eq!(target_ms, 5_000),
        _ => panic!("expected a seek"),
    }
}

#[test]
fn test_tabs_and_crossfade_cycles() {
    assert_eq!(next_tab(LibraryMode::Queue), LibraryMode::Directory);
    assert_eq!(prev_tab(next_tab(LibraryMode::Directory)), LibraryMode::Directory);
    assert_eq!(next_tab(LibraryMode::Search), LibraryMode::Playlists);
    assert_eq!(prev_tab(LibraryMode::Search), LibraryMode::Directory);
    assert_eq!(toggle_crossfade(0), 2);
    assert_eq!(toggle_crossfade(2), 4);
    assert_eq!(toggle_crossfade(4), 6);
    assert_eq!(toggle_crossfade(6), 0);
    assert_eq!(toggle_crossfade(5), 0);
}

#[test]
fn test_unused_key_changes_nothing() {
    let mut app = UiState::new(0, 0, 50);
    assert!(press(&mut app, KeyCode::Char('~'), None, 0).is_none());
    assert!(app.is_running);
    assert_eq!(app.view_mode, ViewMode::Lyrics);
}

#[test]
fn test_library_h_and_l_go_back_and_enter() {
    let mut app = UiState::new(0, 0, 50);
    app.view_mode = ViewMode::Library;
    app.library_mode = LibraryMode::Directory;
    app.browse_path = vec!["Jazz".chars().collect()];
    app.library_items = vec![LibraryItem {
        name: "Miles".to_string(),
        item_type: LibraryItemType::Folder,
        artist: None,
        duration_ms: None,
        path: Some("Jazz/Miles".to_string()),
    }];
    match press(&mut app, KeyCode::Char('l'), None, 0) {
        Some(Action::EnterFolder { path, name }) => {
            assert_eq!(path.iter().collect::<String>(), "Jazz/Miles");
            assert_eq!(name.iter().collect::<String>(), "Miles");
        },
        _ => panic!("expected to enter the folder"),
    }
    match press(&mut app, KeyCode::Char('h'), None, 0) {
        Some(Action::FetchDirectory(p)) => assert!(p.is_empty()),
        _ => panic!("expected to go back"),
    }
    assert!(app.browse_path.is_empty());
}

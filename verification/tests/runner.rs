use vyom::presets::{delete_preset, get_preset_name, initial_preset, mark_custom, next_preset, prev_preset, saved_presets};
use vyom::runner::{
    get_current_position_ms, is_gapless, on_tick, redraw_on_tick, scroll_back_tick, show_toast, sync_volume, track_id,
};

fn names(v: &[&str]) -> Vec<String> {
    v.iter().map(|s| s.to_string()).collect()
}

#[test]
fn test_toast_keeps_start_and_expires() {
    let mut t = None;
    show_toast(&mut t, "one", 100);
    show_toast(&mut t, "two", 900);
    let shown = t.clone().unwrap();
    assert_eq!(shown.message, "two");
    assert_eq!(shown.start_time, 100);
    assert_eq!(shown.deadline, 2900);
    on_tick(&mut t, 2900);
    assert!(t.is_some());
    on_tick(&mut t, 2901);
    assert!(t.is_none());
}

#[test]
fn test_position_extrapolation() {
    assert_eq!(get_current_position_ms(None, Some(10)), 0);
    assert_eq!(get_current_position_ms(Some((1000, 5000, true)), Some(300)), 1300);
    assert_eq!(get_current_position_ms(Some((4900, 5000, true)), Some(300)), 5000);
    assert_eq!(get_current_position_ms(Some((1000, 5000, false)), Some(300)), 1000);
    assert_eq!(get_current_position_ms(Some((1000, 5000, true)), None), 1000);
}

#[test]
fn test_volume_following() {
    assert_eq!(sync_volume(50, false, Some(70), false), Some(70));
    assert_eq!(sync_volume(50, false, Some(51), false), None);
    assert_eq!(sync_volume(50, false, Some(70), true), None);
    assert_eq!(sync_volume(50, true, Some(0), false), None);
    assert_eq!(sync_volume(0, true, Some(0), false), None);
    assert_eq!(sync_volume(10, false, Some(300), false), Some(44));
    assert_eq!(sync_volume(10, false, Some(200), false), Some(100));
}

#[test]
fn test_gapless_and_ids() {
    assert!(is_gapless("Album", "Album"));
    assert!(!is_gapless("", ""));
    assert!(!is_gapless("A", "B"));
    assert_eq!(track_id("Song", "Band"), "SongBand");
}

#[test]
fn test_redraw_and_scroll_back() {
    assert!(redraw_on_tick(true, false, false, false, 1));
    assert!(redraw_on_tick(false, false, false, true, 60));
    assert!(!redraw_on_tick(false, false, false, true, 61));
    let (a, o, s) = scroll_back_tick(0, Some(5), None, 2);
    assert_eq!((a, o, s), (16, Some(5), None));
    let (a, o, s) = scroll_back_tick(48, Some(5), None, 2);
    assert_eq!((a, o, s), (0, Some(4), None));
    let (a, o, s) = scroll_back_tick(40, Some(2), Some(2), 2);
    assert_eq!((a, o, s), (0, None, None));
}

#[test]
fn test_preset_choice() {
    let list = names(&["Flat", "Rock", "Mine"]);
    assert_eq!(initial_preset(&list, "Rock"), 1);
    assert_eq!(initial_preset(&list, "Gone"), 0);
    assert_eq!(next_preset(2, 3), 0);
    assert_eq!(prev_preset(0, 3), 2);
    assert_eq!(get_preset_name(&list, 2), "Mine");
    assert_eq!(get_preset_name(&list, 9), "Unknown");
    assert_eq!(mark_custom(&list), (0, true));
    assert_eq!(mark_custom(&names(&["Flat", "Custom"])), (1, false));
    let builtin = names(&["Flat", "Rock"]);
    assert_eq!(delete_preset(&list, 1, &builtin), Err("Cannot delete built-in preset".to_string()));
    assert_eq!(delete_preset(&list, 5, &builtin), Err("No preset selected".to_string()));
    assert_eq!(delete_preset(&list, 2, &builtin), Ok((2, 1)));
    assert_eq!(saved_presets(&list, &builtin), vec![2]);
}

#[test]
fn test_reset_eq_positions() {
    assert_eq!(vyom::presets::reset_eq(&names(&["Custom", "Flat"])), (Some(0), Some(1)));
    assert_eq!(vyom::presets::reset_eq(&names(&["Rock"])), (None, None));
}

use vyom::view::{fit_name_to, duration_label, format_detail, lyric_row, panel_layout, quality_badge, scroll_start, time_label, PanelLayout, QualityBadge};

#[test]
fn test_scroll_clamping() {
    let list_len: usize = 50;
    let h: usize = 30;
    let header_footer: usize = 8;
    let content_h: usize = h - header_footer;

    let selected: usize = 49;
    let old_start = selected.saturating_sub(content_h / 2);
    let old_visible_count = list_len - old_start;
    assert_eq!(old_visible_count, 12);

    let new_start = scroll_start(selected, content_h, list_len);
    assert_eq!(new_start, 28);
    let new_visible_count = list_len - new_start;

    assert_eq!(new_visible_count, content_h, "List should be fully filled");
    assert!(new_start <= selected, "Start index must be before or equal to selected");
    assert!(new_start + content_h > selected, "Selected item must be within view");
}

#[test]
fn test_scroll_start_middle_and_short_list() {
    assert_eq!(scroll_start(20, 10, 100), 15);
    assert_eq!(scroll_start(3, 10, 100), 0);
    assert_eq!(scroll_start(4, 10, 6), 0);
}

#[test]
fn test_time_label() {
    assert_eq!(time_label(0, 0), "00:00 / 00:00");
    assert_eq!(time_label(65_000, 3_599_999), "01:05 / 59:59");
    assert_eq!(time_label(6_000_000, 61_000), "100:00 / 01:01");
}

#[test]
fn test_duration_label() {
    assert_eq!(duration_label(0), "0:00");
    assert_eq!(duration_label(185_999), "3:05");
    assert_eq!(duration_label(3_600_000), "60:00");
}

#[test]
fn test_lyric_rows() {
    // A view of 11 rows centred on line 3 of 10.
    assert_eq!(lyric_row(5, 11, 3, 10), Some((3, 0)));
    assert_eq!(lyric_row(0, 11, 3, 10), None);
    assert_eq!(lyric_row(2, 11, 3, 10), Some((0, 3)));
    assert_eq!(lyric_row(10, 11, 3, 10), Some((8, 5)));
    // Rows more than six from the middle stay empty.
    assert_eq!(lyric_row(0, 20, 15, 40), None);
    assert_eq!(lyric_row(4, 20, 15, 40), Some((9, 6)));
}

#[test]
fn test_panel_layout() {
    assert_eq!(panel_layout(120, 40, false, true), PanelLayout::Horizontal);
    assert_eq!(panel_layout(120, 40, true, true), PanelLayout::Vertical);
    assert_eq!(panel_layout(80, 29, false, true), PanelLayout::PlayerOnly);
    assert_eq!(panel_layout(200, 100, false, false), PanelLayout::PlayerOnly);
}

#[test]
fn test_quality_badge() {
    assert_eq!(quality_badge(Some("flac"), Some(24), Some(96000)), Some(QualityBadge::HiRes));
    assert_eq!(quality_badge(Some("flac"), Some(16), Some(44100)), Some(QualityBadge::Cd));
    assert_eq!(quality_badge(Some("mp3"), None, Some(44100)), Some(QualityBadge::Lossy));
    assert_eq!(quality_badge(Some("Wav"), Some(8), None), Some(QualityBadge::Lossless));
    assert_eq!(quality_badge(Some("xyz"), None, Some(48000)), Some(QualityBadge::HiRes));
    assert_eq!(quality_badge(None, None, None), None);
}

#[test]
fn test_format_detail() {
    assert_eq!(format_detail(Some(24), Some(96000), Some(0)), "24bit/96kHz");
    assert_eq!(format_detail(None, Some(44100), Some(320)), "44kHz 320kbps");
    assert_eq!(format_detail(Some(16), None, None), "");
}

#[test]
fn test_fit_name_cuts_by_bytes_between_characters() {
    assert_eq!(fit_name_to("Blue", 4), "Blue");
    assert_eq!(fit_name_to("Kind of Blue", 5), "Kind…");
    assert_eq!(fit_name_to("Blue", 0), "…");
    assert_eq!(fit_name_to("Blue", 1), "…");
    // "é" takes two bytes: "Café" is five bytes long.
    assert_eq!(fit_name_to("Café", 5), "Café");
    assert_eq!(fit_name_to("Cafés", 5), "Caf…");
    assert_eq!(fit_name_to("Éte", 2), "…");
    assert_eq!(fit_name_to("Éte", 3), "É…");
}

use vyom::lyrics::{
    after_exact_lookup, after_title_search, clean_artist, clean_title, current_line_index, parse_lrc_text, parse_record,
    parse_timestamp, select_search_result, LyricLine, LyricsCandidate, LyricsFetchResult, LyricsNext, LyricsRecord,
};

fn line(ms: u64, text: &str) -> LyricLine {
    LyricLine { timestamp_ms: ms, text: text.to_string() }
}

fn ts(s: &str) -> Option<u64> {
    parse_timestamp(&s.chars().collect())
}

#[test]
fn test_timestamps() {
    assert_eq!(ts("01:02.34"), Some(62_340));
    assert_eq!(ts("00:05.123"), Some(5_123));
    assert_eq!(ts("00:05"), Some(5_000));
    assert_eq!(ts("3:00.5"), Some(180_005));
    assert_eq!(ts("ar:Artist"), None);
    assert_eq!(ts("1:2:3"), None);
}

#[test]
fn test_parse_lrc_text() {
    let text = "[ar:Someone]\n[00:12.34] Hello \r\nplain line\n[01:00.00]World";
    let lines = parse_lrc_text(text);
    assert_eq!(lines, vec![line(12_340, "Hello"), line(60_000, "World")]);
}

#[test]
fn test_parse_record_kinds() {
    let inst = LyricsRecord { synced_lyrics: Some("[00:01.00]x".to_string()), plain_lyrics: None, instrumental: true };
    assert!(matches!(parse_record(&inst), LyricsFetchResult::Instrumental));
    let none = LyricsRecord { synced_lyrics: None, plain_lyrics: None, instrumental: false };
    assert!(matches!(parse_record(&none), LyricsFetchResult::NoLyrics));
    let plain = LyricsRecord { synced_lyrics: None, plain_lyrics: Some("no tags here".to_string()), instrumental: false };
    assert!(matches!(parse_record(&plain), LyricsFetchResult::NoLyrics));
    let synced = LyricsRecord { synced_lyrics: Some("[00:02.00]Hi".to_string()), plain_lyrics: None, instrumental: false };
    match parse_record(&synced) {
        LyricsFetchResult::Found(l) => assert_eq!(l, vec![line(2_000, "Hi")]),
        _ => panic!("expected lyrics"),
    }
}

#[test]
fn test_search_result_selection() {
    let synced = LyricsRecord { synced_lyrics: Some("[00:02.00]Hi".to_string()), plain_lyrics: None, instrumental: false };
    let inst = LyricsRecord { synced_lyrics: None, plain_lyrics: None, instrumental: true };
    let far = LyricsCandidate { record: synced.clone(), duration_matches: false };
    let near_inst = LyricsCandidate { record: inst.clone(), duration_matches: true };
    let near_synced = LyricsCandidate { record: synced.clone(), duration_matches: true };
    assert!(matches!(select_search_result(&vec![far.clone(), near_inst.clone()]), LyricsFetchResult::Instrumental));
    assert!(matches!(select_search_result(&vec![near_inst, near_synced]), LyricsFetchResult::Found(_)));
    assert!(matches!(select_search_result(&vec![far]), LyricsFetchResult::NoLyrics));
}

#[test]
fn test_clean_title_and_artist() {
    assert_eq!(clean_title("Song (Remastered 2011)"), "song");
    assert_eq!(clean_title("Track feat. Someone"), "track");
    assert_eq!(clean_title("Hello [Live]  "), "hello");
    assert_eq!(clean_artist("Drake, Future"), "drake");
    assert_eq!(clean_artist("Drake & Future"), "drake");
    assert_eq!(clean_artist("Drake feat. Future"), "drake");
    assert_eq!(clean_artist("  Solo  "), "solo");
}

#[test]
fn test_current_line() {
    let lines = vec![line(1000, "a"), line(2000, "b"), line(3000, "c")];
    assert_eq!(current_line_index(&lines, 0), 0);
    assert_eq!(current_line_index(&lines, 1500), 0);
    assert_eq!(current_line_index(&lines, 2000), 1);
    assert_eq!(current_line_index(&lines, 9000), 2);
    assert_eq!(current_line_index(&vec![], 10), 0);
}

#[test]
fn test_lookup_steps() {
    match after_exact_lookup(None, "Drake, Future", "Song (Remix)") {
        LyricsNext::Search { artist, title } => {
            assert_eq!(artist, "Drake, Future");
            assert_eq!(title, "song");
        },
        _ => panic!("expected a search"),
    }
    match after_title_search(LyricsFetchResult::NoLyrics, "Drake, Future", "Song") {
        LyricsNext::Search { artist, title } => {
            assert_eq!(artist, "drake");
            assert_eq!(title, "song");
        },
        _ => panic!("expected a second search"),
    }
    assert!(matches!(
        after_title_search(LyricsFetchResult::NoLyrics, "drake", "Song"),
        LyricsNext::Finish(LyricsFetchResult::NoLyrics)
    ));
    assert!(matches!(
        after_title_search(LyricsFetchResult::Instrumental, "drake", "Song"),
        LyricsNext::Finish(LyricsFetchResult::Instrumental)
    ));
}

#[test]
fn test_cache_file_name() {
    assert_eq!(vyom::lyrics::cache_file_name("AC/DC", "Back/In Black"), "AC_DC_Back_In Black.json");
}

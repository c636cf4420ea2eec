use vyom::library::{FolderWalk, WalkAction, fetch_directory_items, fuzzy_search, queue_folder_recursive, rank_search_results, FolderStep};
use vyom::mpd::Song;
use vyom::state::LibraryItemType;

fn entry(kind: &str, name: &str) -> (String, String) {
    (kind.to_string(), name.to_string())
}

fn song(file: &str, title: Option<&str>) -> Song {
    Song { file: file.to_string(), title: title.map(|t| t.to_string()), artist: None, duration_ms: Some(1234), id: None, tags: vec![] }
}

#[test]
fn test_directory_items_folders_first_sorted() {
    let entries = vec![
        entry("directory", "Music/zeta"),
        entry("file", "Music/x.flac"),
        entry("directory", "Music/.hidden"),
        entry("directory", "Music/Alpha"),
    ];
    let songs = vec![song("Music/b.flac", Some("  ")), song("Music/a.flac", Some("Zulu")), song("Music/.dot.flac", None)];
    let items = fetch_directory_items("Music", &entries, &songs);
    let names: Vec<String> = items.iter().map(|i| i.name.clone()).collect();
    assert_eq!(names, vec!["Alpha", "zeta", "b.flac", "Zulu"]);
    assert_eq!(items[0].item_type, LibraryItemType::Folder);
    assert_eq!(items[0].path, Some("Music/Music/Alpha".to_string()));
    assert_eq!(items[2].item_type, LibraryItemType::Song);
    assert_eq!(items[2].path, Some("Music/b.flac".to_string()));
    assert_eq!(items[2].duration_ms, Some(1234));
}

#[test]
fn test_directory_items_root_path() {
    let entries = vec![entry("directory", "Rock")];
    let items = fetch_directory_items("", &entries, &vec![]);
    assert_eq!(items.len(), 1);
    assert_eq!(items[0].path, Some("Rock".to_string()));
}

#[test]
fn test_queue_folder_steps() {
    let entries = vec![
        entry("file", "b.mp3"),
        entry("directory", "Sub"),
        entry("playlist", "p.m3u"),
        entry("file", "A.mp3"),
    ];
    let steps = queue_folder_recursive("Root", &entries);
    assert_eq!(
        steps,
        vec![
            FolderStep::Recurse("Root/Sub".to_string()),
            FolderStep::Push("Root/A.mp3".to_string()),
            FolderStep::Push("Root/b.mp3".to_string()),
        ]
    );
}

#[test]
fn test_rank_search_results_best_first_ties_in_order() {
    let songs = vec![song("a", Some("A")), song("b", None), song("c", Some("C")), song("d", Some("D"))];
    let scores = vec![Some(5), None, Some(9), Some(5)];
    let items = rank_search_results(&songs, &scores);
    let names: Vec<String> = items.iter().map(|i| i.name.clone()).collect();
    assert_eq!(names, vec!["C", "A", "D"]);
}

#[test]
fn test_fuzzy_search_finds_matching_song() {
    let songs = vec![song("Jazz/blue.mp3", Some("Blue in Green")), song("Rock/x.mp3", Some("Thunder"))];
    let items = fuzzy_search(&songs, "thndr");
    assert_eq!(items.len(), 1);
    assert_eq!(items[0].name, "Thunder");
    let all = fuzzy_search(&songs, "");
    assert_eq!(all.len(), 2);
}

#[test]
fn test_folder_walk_adds_depth_first() {
    fn listing(dir: &str) -> Vec<(String, String)> {
        let e = |k: &str, n: &str| (k.to_string(), n.to_string());
        match dir {
            "Jazz" => vec![e("file", "b.flac"), e("directory", "Miles"), e("file", "A.flac"), e("directory", "Bill")],
            "Jazz/Miles" => vec![e("file", "so what.flac")],
            "Jazz/Bill" => vec![e("playlist", "x.m3u"), e("file", "waltz.flac")],
            _ => Vec::new(),
        }
    }
    let mut walk = FolderWalk::new("Jazz");
    let mut listed = Vec::new();
    let mut pushed = Vec::new();
    loop {
        match walk.next() {
            WalkAction::List(d) => {
                listed.push(d.clone());
                walk.enter(&d, &listing(&d));
            }
            WalkAction::Push(f) => pushed.push(f),
            WalkAction::Finished => break,
        }
    }
    assert_eq!(listed, vec!["Jazz", "Jazz/Bill", "Jazz/Miles"]);
    assert_eq!(pushed, vec!["Jazz/Bill/waltz.flac", "Jazz/Miles/so what.flac", "Jazz/A.flac", "Jazz/b.flac"]);
}

use vyom::artwork::{clean_string, pick_artwork, search_term, ItunesResult};

fn result(url: &str, album: Option<&str>, artist: Option<&str>) -> ItunesResult {
    ItunesResult { artwork_url: url.to_string(), collection_name: album.map(|s| s.to_string()), artist_name: artist.map(|s| s.to_string()) }
}

#[test]
fn test_clean_string() {
    let c: String = clean_string("Abbey Road (Remastered)").into_iter().collect();
    assert_eq!(c, "abbey road");
    let d: String = clean_string("Song feat. X [Live]").into_iter().collect();
    assert_eq!(d, "song");
    assert_eq!(search_term("The Beatles", "Abbey Road (Deluxe)"), "the beatles abbey road");
}

#[test]
fn test_pick_artwork() {
    let results = vec![
        result("https://a/100x100bb.jpg", Some("Other"), Some("Someone Else")),
        result("https://b/100x100bb.jpg", Some("Help!"), Some("The Beatles")),
        result("https://c/100x100bb.jpg", Some("Abbey Road (2019 Mix)"), Some("The Beatles")),
    ];
    assert_eq!(pick_artwork("The Beatles", "Abbey Road", &results), Some("https://c/600x600bb.jpg".to_string()));
    assert_eq!(pick_artwork("The Beatles", "Nothing Like It", &results), Some("https://b/600x600bb.jpg".to_string()));
    assert_eq!(pick_artwork("Nobody", "X", &results[..1].to_vec()), None);
}

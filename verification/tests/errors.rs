use vyom::error::VyomError;

#[test]
fn test_error_display() {
    let err = VyomError::MpdConnection("timeout".to_string());
    assert_eq!(err.message(), "MPD connection failed: timeout");
}

#[test]
fn test_config_error() {
    let err = VyomError::ConfigParse("invalid TOML".to_string());
    assert_eq!(err.message(), "Config parse error: invalid TOML");
}

#[test]
fn test_error_is_std_error() {
    let err = VyomError::AudioPipeline("no device".to_string());
    assert_eq!(err.message(), "Audio pipeline error: no device");
}

#[test]
fn test_every_error_kind_message() {
    assert_eq!(VyomError::LyricsFetch("x".to_string()).message(), "Lyrics fetch failed: x");
    assert_eq!(VyomError::ArtworkFetch("y".to_string()).message(), "Artwork fetch failed: y");
    assert_eq!(VyomError::PlayerCommand("z".to_string()).message(), "Player command failed: z");
}

use vyom::controller::{
    detect_active_player, parse_music_output, repeat_from_output, repeat_script, shuffle_script, MacOsPlayer, MediaApp,
    PlayerChoice, PlayerFactory,
};
use vyom::config::{music_directory_for, Args, UserConfig};
use vyom::player::{PlayerState, RepeatMode};

#[test]
fn test_detect_active_player() {
    assert_eq!(detect_active_player(true, true), Some(MediaApp::Spotify));
    assert_eq!(detect_active_player(false, true), Some(MediaApp::Music));
    assert_eq!(detect_active_player(false, false), None);
}

#[test]
fn test_parse_player_output() {
    let out = "Song|||Band|||Record|||215000|||12,5|||playing|||https://img/x.jpg|||64";
    let t = MacOsPlayer::parse_player_output(out, "Spotify").unwrap();
    assert_eq!(t.name, "Song");
    assert_eq!(t.artist, "Band");
    assert_eq!(t.album, "Record");
    assert_eq!(t.duration_text, "215000");
    assert_eq!(t.position_text, "12.5");
    assert_eq!(t.state, PlayerState::Playing);
    assert_eq!(t.artwork_url, Some("https://img/x.jpg".to_string()));
    assert_eq!(t.volume, 64);
    assert_eq!(t.source, "Spotify");
    assert!(MacOsPlayer::parse_player_output("  STOPPED \n", "Spotify").is_none());
    assert!(MacOsPlayer::parse_player_output("a|||b|||c", "Spotify").is_none());
    let t2 = MacOsPlayer::parse_player_output("a|||b|||c|||1|||2|||paused|||NONE", "Music").unwrap();
    assert_eq!(t2.artwork_url, None);
    assert_eq!(t2.volume, 0);
    assert_eq!(t2.state, PlayerState::Paused);
}

#[test]
fn test_parse_music_output() {
    let t = parse_music_output("a|||b|||c|||1000|||2|||stopped|||https://x|||oops").unwrap();
    assert_eq!(t.artwork_url, None);
    assert_eq!(t.state, PlayerState::Stopped);
    assert_eq!(t.volume, 0);
    assert_eq!(t.source, "Music");
}

#[test]
fn test_scripts() {
    assert_eq!(repeat_script(MediaApp::Spotify, RepeatMode::Single), "tell application \"Spotify\" to set repeating to true");
    assert_eq!(repeat_script(MediaApp::Spotify, RepeatMode::Off), "tell application \"Spotify\" to set repeating to false");
    assert_eq!(repeat_script(MediaApp::Music, RepeatMode::Playlist), "tell application \"Music\" to set song repeat to all");
    assert_eq!(shuffle_script(MediaApp::Music, true), "tell application \"Music\" to set shuffle enabled to true");
    assert_eq!(repeat_from_output(MediaApp::Spotify, "true"), RepeatMode::Playlist);
    assert_eq!(repeat_from_output(MediaApp::Music, "one"), RepeatMode::Single);
    assert_eq!(repeat_from_output(MediaApp::Music, "huh"), RepeatMode::Off);
}

#[test]
fn test_player_factory() {
    let args = Args {
        standalone: false,
        mini: false,
        controller: false,
        mpd_host: "localhost".to_string(),
        mpd_port: 6600,
        generate_config: false,
    };
    let cfg = UserConfig { keys: vyom::keys::KeyConfig::default(), music_directory: "/m".to_string() };
    match PlayerFactory::create(&args, &cfg) {
        PlayerChoice::Mpd(p) => {
            assert_eq!(p.host, "localhost");
            assert_eq!(p.port, 6600);
            assert_eq!(p.music_directory, "/m");
        },
        PlayerChoice::Native => panic!("expected the daemon"),
    }
    let ctl = Args { controller: true, ..args };
    assert!(matches!(PlayerFactory::create(&ctl, &cfg), PlayerChoice::Native));
}

#[test]
fn test_user_config_defaults() {
    assert_eq!(music_directory_for(Some("/home/u".to_string())), "/home/u/Music");
    assert_eq!(music_directory_for(None), "./Music");
    let c = UserConfig::default();
    assert_eq!(c.keys.quit, "q");
    assert_eq!(c.keys.play_pause, "Space");
    assert!(c.music_directory.ends_with("/Music"));
}

#[test]
fn test_tmux_split_args() {
    let args = Args {
        standalone: false,
        mini: false,
        controller: false,
        mpd_host: "media".to_string(),
        mpd_port: 6601,
        generate_config: false,
    };
    let v = vyom::config::tmux_split_args(&args, "/bin/vyom", true, true).unwrap();
    assert_eq!(v, vec!["split-window", "-h", "-p", "20", "/bin/vyom", "--standalone", "--mpd-host", "media", "--mpd-port", "6601"]);
    let ctl = Args { controller: true, ..args.clone() };
    let w = vyom::config::tmux_split_args(&ctl, "/bin/vyom", true, true).unwrap();
    assert_eq!(w.last().unwrap(), "--controller");
    assert!(vyom::config::tmux_split_args(&args, "/bin/vyom", false, true).is_none());
    assert!(vyom::config::tmux_split_args(&args, "/bin/vyom", true, false).is_none());
    let child = Args { standalone: true, ..args };
    assert!(vyom::config::tmux_split_args(&child, "/bin/vyom", true, true).is_none());
}

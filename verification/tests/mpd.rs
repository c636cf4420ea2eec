use vyom::mpd::{music_dir_from, AudioFormat, DaemonState, MpdCommand, MpdPlayer, Song, Status};
use vyom::player::{PlayerState, RepeatMode};

fn song(file: &str, title: Option<&str>, artist: Option<&str>, tags: &[(&str, &str)]) -> Song {
    Song {
        file: file.to_string(),
        title: title.map(|t| t.to_string()),
        artist: artist.map(|a| a.to_string()),
        duration_ms: None,
        id: None,
        tags: tags.iter().map(|(k, v)| (k.to_string(), v.to_string())).collect(),
    }
}

fn status(state: DaemonState, volume: i8) -> Status {
    Status {
        volume,
        repeat: false,
        random: false,
        single: false,
        state,
        elapsed_ms: None,
        duration_ms: None,
        bitrate: None,
        crossfade_secs: None,
        audio: None,
    }
}

fn player() -> MpdPlayer {
    MpdPlayer::new("localhost".to_string(), 6600, "/home/u/Music".to_string())
}

#[test]
fn test_list_artists_sorted_unique_first_tag() {
    let songs = vec![
        song("a.flac", None, None, &[("Artist", "Zed"), ("Artist", "Ignored")]),
        song("b.flac", None, None, &[("Artist", "Abba")]),
        song("c.flac", None, None, &[("artist", "lowercase key is not Artist")]),
        song("d.flac", None, None, &[("Artist", "Zed")]),
    ];
    let p = player();
    assert_eq!(p.list_artists(&songs), vec!["Abba".to_string(), "Zed".to_string()]);
}

#[test]
fn test_list_albums_and_genres() {
    let songs = vec![
        song("a.flac", None, None, &[("Album", "B"), ("Genre", "Rock")]),
        song("b.flac", None, None, &[("Album", "A"), ("Genre", "Jazz")]),
        song("c.flac", None, None, &[("Album", "B")]),
    ];
    let p = player();
    assert_eq!(p.list_albums(&songs, None), vec!["A".to_string(), "B".to_string()]);
    assert_eq!(p.list_albums(&songs, Some("anyone")), Vec::<String>::new());
    assert_eq!(p.list_genres(&songs), vec!["Jazz".to_string(), "Rock".to_string()]);
}

#[test]
fn test_list_albums_of_an_artist() {
    let songs = vec![
        song("a.flac", None, None, &[("Album", "Blue"), ("Artist", "Joni")]),
        song("b.flac", None, None, &[("Album", "Kind of Blue"), ("Artist", "Miles")]),
        song("c.flac", None, None, &[("Album", "Court and Spark"), ("Artist", "Joni")]),
        song("d.flac", None, None, &[("Album", "Hejira"), ("Artist", "Other"), ("Artist", "Joni")]),
    ];
    let p = player();
    assert_eq!(
        p.list_albums(&songs, Some("Joni")),
        vec!["Blue".to_string(), "Court and Spark".to_string()]
    );
    assert_eq!(p.list_albums(&songs, Some("Miles")), vec!["Kind of Blue".to_string()]);
}

#[test]
fn test_search_library_ignores_case_and_looks_at_tags() {
    let songs = vec![
        song("Rock/One.flac", Some("One"), None, &[]),
        song("Pop/two.mp3", Some("Two"), None, &[("Album", "ROCKY")]),
        song("Jazz/three.mp3", Some("Three"), None, &[]),
    ];
    let p = player();
    let r = p.search_library("rock", songs);
    let files: Vec<String> = r.iter().map(|s| s.file.clone()).collect();
    assert_eq!(files, vec!["Rock/One.flac".to_string(), "Pop/two.mp3".to_string()]);
}

#[test]
fn test_search_library_at_most_fifty() {
    let songs: Vec<Song> = (0..60).map(|i| song(&format!("x{}.mp3", i), None, None, &[])).collect();
    let p = player();
    let r = p.search_library("X", songs);
    assert_eq!(r.len(), 50);
    assert_eq!(r[49].file, "x49.mp3");
}

#[test]
fn test_current_track_fields() {
    let mut st = status(DaemonState::Pause, -1);
    st.elapsed_ms = Some(1500);
    st.duration_ms = Some(200_000);
    st.bitrate = Some(900);
    st.audio = Some(AudioFormat { rate: 96000, bits: 24, chans: 2 });
    let s = song("Artist/Album/track.FLAC", Some("Song"), None, &[("ALBUM", "The Album"), ("Format", "flac")]);
    let p = player();
    let t = p.get_current_track(Some(s), &st).unwrap();
    assert_eq!(t.name, "Song");
    assert_eq!(t.artist, "Unknown");
    assert_eq!(t.album, "The Album");
    assert_eq!(t.position_ms, 1500);
    assert_eq!(t.duration_ms, 200_000);
    assert_eq!(t.state, PlayerState::Paused);
    assert_eq!(t.source, "MPD");
    assert_eq!(t.codec, Some("FLAC".to_string()));
    assert_eq!(t.bitrate, Some(900));
    assert_eq!(t.sample_rate, Some(96000));
    assert_eq!(t.bit_depth, Some(24));
    assert_eq!(t.file_path, Some("/home/u/Music/Artist/Album/track.FLAC".to_string()));
    assert_eq!(t.volume, Some(1));
    assert!(p.get_current_track(None, &st).is_none());
}

#[test]
fn test_current_track_absolute_path_and_codec_tag() {
    let st = status(DaemonState::Play, 70);
    let s = song("/abs/noext", None, Some("Band"), &[("codec", "opus")]);
    let t = player().get_current_track(Some(s), &st).unwrap();
    assert_eq!(t.file_path, Some("/abs/noext".to_string()));
    assert_eq!(t.codec, Some("opus".to_string()));
    assert_eq!(t.artist, "Band");
    assert_eq!(t.album, "Unknown");
    assert_eq!(t.position_ms, 0);
    assert_eq!(t.volume, Some(70));
}

#[test]
fn test_queue_entries() {
    let mut a = song("a.mp3", Some("A"), None, &[("AlbumArtist", "Crew")]);
    a.id = Some(7);
    a.duration_ms = Some(1000);
    let mut b = song("b.mp3", None, None, &[]);
    b.id = Some(8);
    let mut cur = song("b.mp3", None, None, &[]);
    cur.id = Some(8);
    let q = player().get_queue(&vec![a, b], Some(cur));
    assert_eq!(q.len(), 2);
    assert_eq!(q[0].title, "A");
    assert_eq!(q[0].artist, "Crew");
    assert_eq!(q[0].duration_ms, 1000);
    assert!(!q[0].is_current);
    assert_eq!(q[1].title, "b.mp3");
    assert_eq!(q[1].artist, "Unknown Artist");
    assert!(q[1].is_current);
}

#[test]
fn test_commands() {
    let p = player();
    assert_eq!(p.play_pause(&status(DaemonState::Play, 50)), (MpdCommand::Pause(true), false));
    assert_eq!(p.play_pause(&status(DaemonState::Stop, 50)), (MpdCommand::Play, true));
    assert_eq!(p.volume_up(&status(DaemonState::Play, 98)), Some(MpdCommand::Volume(100)));
    assert_eq!(p.volume_up(&status(DaemonState::Play, 10)), Some(MpdCommand::Volume(15)));
    assert_eq!(p.volume_up(&status(DaemonState::Play, -1)), None);
    assert_eq!(p.volume_down(&status(DaemonState::Play, 3)), Some(MpdCommand::Volume(0)));
    assert_eq!(p.set_volume(250), MpdCommand::Volume(100));
    assert_eq!(p.repeat(RepeatMode::Single), vec![MpdCommand::Repeat(true), MpdCommand::Single(true)]);
    assert_eq!(p.set_crossfade(4), MpdCommand::Crossfade(4));
    assert_eq!(p.load_playlist("mix"), MpdCommand::Load("mix".to_string()));
    assert_eq!(p.save_playlist("mix"), MpdCommand::Save("mix".to_string()));
    assert_eq!(p.rename_playlist("a", "b"), MpdCommand::Rename("a".to_string(), "b".to_string()));
    assert_eq!(p.add_to_queue("x/y.flac"), MpdCommand::Push("x/y.flac".to_string()));
    assert_eq!(p.play_pos(3), MpdCommand::Switch(3));
    assert_eq!(p.list_playlists(), MpdCommand::ListPlaylists);
}

#[test]
fn test_status_readings() {
    let p = player();
    let mut st = status(DaemonState::Play, 50);
    assert_eq!(p.get_crossfade(&st), 0);
    st.crossfade_secs = Some(6);
    assert_eq!(p.get_crossfade(&st), 6);
    st.repeat = true;
    assert_eq!(p.get_repeat(&st), RepeatMode::Playlist);
    st.single = true;
    assert_eq!(p.get_repeat(&st), RepeatMode::Single);
    assert_eq!(p.get_audio_format(Some(&st)), None);
    st.audio = Some(AudioFormat { rate: 44100, bits: 16, chans: 2 });
    assert_eq!(p.get_audio_format(Some(&st)), Some((44100, 16, 2)));
    assert_eq!(p.get_audio_format(None), None);
}

#[test]
fn test_music_dir_defaults() {
    assert_eq!(music_dir_from(Some("/m".to_string()), Some("/h".to_string())), "/m");
    assert_eq!(music_dir_from(None, Some("/home/u".to_string())), "/home/u/Music");
    assert_eq!(music_dir_from(None, Some("/".to_string())), "/Music");
    assert_eq!(music_dir_from(None, None), ".");
    let d = MpdPlayer::default();
    assert_eq!(d.host, "localhost");
    assert_eq!(d.port, 6600);
}

#[test]
fn test_codec_from_file_name() {
    let p = player();
    assert_eq!(p.extract_audio_info(&song("a/b.flac", None, None, &[])), (Some("FLAC".to_string()), None, None, None));
    assert_eq!(p.extract_audio_info(&song("b.m4a", None, None, &[])).0, Some("AAC".to_string()));
    assert_eq!(p.extract_audio_info(&song("b.opus", None, None, &[])).0, Some("OPUS".to_string()));
    assert_eq!(p.extract_audio_info(&song("b.FLAC", None, None, &[])).0, None);
}

#[test]
fn test_repeat_mode_round_trip() {
    let p = player();
    for mode in [RepeatMode::Off, RepeatMode::Playlist, RepeatMode::Single] {
        let cmds = p.repeat(mode);
        let mut st = status(DaemonState::Play, 50);
        for c in cmds {
            match c {
                MpdCommand::Repeat(b) => st.repeat = b,
                MpdCommand::Single(b) => st.single = b,
                _ => panic!("unexpected command"),
            }
        }
        assert_eq!(p.get_repeat(&st), mode);
    }
}

#[test]
fn test_crossfade_reads_back_what_was_set() {
    let p = player();
    let secs = match p.set_crossfade(6) {
        MpdCommand::Crossfade(n) => n,
        _ => panic!("expected a crossfade command"),
    };
    let mut st = status(DaemonState::Play, 50);
    st.crossfade_secs = Some(secs as u64);
    assert_eq!(p.get_crossfade(&st), 6);
    st.crossfade_secs = None;
    assert_eq!(p.get_crossfade(&st), 0);
}

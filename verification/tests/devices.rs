use vyom::audio::{
    device_name_from, devices_from, device_names, get_devices_from_system, get_output_device_name, get_output_devices, parse_mpd_status,
    switch_audio_device, AudioInputFormat, AudioPipelineConfig, AudioSource, DeviceState,
};

fn names(v: &[&str]) -> Vec<String> {
    v.iter().map(|s| s.to_string()).collect()
}

#[test]
fn test_parse_mpd_status() {
    let text = "volume: 50\nstate: play\naudio: 96000:24:2\nbitrate: 900\n";
    assert_eq!(parse_mpd_status(text), Some((96000, 24, 2)));
    assert_eq!(parse_mpd_status("volume: 50\n"), None);
    assert_eq!(parse_mpd_status("audio: 44100:f:2\n"), None);
    assert_eq!(parse_mpd_status("audio: 44100\naudio: 48000:16:2\n"), Some((48000, 16, 2)));
    assert_eq!(parse_mpd_status("audio: 99999999999:16:2"), None);
}

#[test]
fn test_formats_and_defaults() {
    let f = AudioInputFormat::default();
    assert_eq!((f.sample_rate, f.bits_per_sample, f.channels), (44100, 16, 2));
    assert!(!f.is_hi_res());
    assert!(AudioInputFormat { sample_rate: 96000, bits_per_sample: 16, channels: 2 }.is_hi_res());
    assert!(AudioInputFormat { sample_rate: 44100, bits_per_sample: 24, channels: 2 }.is_hi_res());
    match AudioPipelineConfig::default().source {
        AudioSource::Http { host, port } => {
            assert_eq!(host, "127.0.0.1");
            assert_eq!(port, 8000);
        },
        _ => panic!("expected the HTTP source"),
    }
}

#[test]
fn test_fallback_devices() {
    assert!(!switch_audio_device("Speakers"));
    assert!(get_devices_from_system().is_empty());
    assert_eq!(get_output_device_name(), "Audio Device");
    let d = get_output_devices();
    assert_eq!(d.len(), 1);
    assert_eq!(d[0].name, "Audio Device");
    assert!(d[0].is_default);
}

#[test]
fn test_device_names() {
    assert_eq!(device_names("  Speakers \n\nHeadphones\r\n   \n"), names(&["Speakers", "Headphones"]));
}

#[test]
fn test_refresh_keeps_device_in_use() {
    let mut s = DeviceState { output_device: "B".to_string(), audio_devices: names(&["A", "B"]), selected_device_idx: 1 };
    s.refresh_devices(names(&["C", "A", "B"]));
    assert_eq!(s.selected_device_idx, 2);
    assert_eq!(s.output_device, "B");
    s.refresh_devices(vec![]);
    assert_eq!(s.audio_devices, names(&["C", "A", "B"]));
    s.refresh_devices(names(&["X", "Y"]));
    assert_eq!(s.selected_device_idx, 0);
    assert_eq!(s.output_device, "X");
}

#[test]
fn test_next_and_prev_device() {
    let mut s = DeviceState { output_device: "B".to_string(), audio_devices: names(&["A", "B"]), selected_device_idx: 1 };
    assert_eq!(s.next_device(names(&["A", "B"])), Some("A".to_string()));
    assert_eq!(s.selected_device_idx, 0);
    assert_eq!(s.output_device, "B");
    s.device_switched("A".to_string());
    assert_eq!(s.prev_device(names(&["A", "B"])), Some("B".to_string()));
    assert_eq!(s.selected_device_idx, 1);
    let mut empty = DeviceState { output_device: "Z".to_string(), audio_devices: vec![], selected_device_idx: 0 };
    assert_eq!(empty.next_device(vec![]), None);
}

#[test]
fn test_device_list_fallback() {
    let fallback = get_output_devices();
    assert_eq!(vyom::audio::device_list(vec![], &fallback), names(&["Audio Device"]));
    assert_eq!(vyom::audio::device_list(names(&["A"]), &fallback), names(&["A"]));
}

#[test]
fn test_device_name_from_library_reply() {
    assert_eq!(device_name_from(Some(Some("Speakers".to_string()))), "Speakers");
    assert_eq!(device_name_from(Some(None)), "Unknown Device");
    assert_eq!(device_name_from(None), "No Output Device");
}

#[test]
fn test_devices_from_drops_repeats_and_marks_default() {
    let names = vec![
        Some("Speakers".to_string()),
        Some("Headphones".to_string()),
        None,
        Some("Speakers".to_string()),
        Some("HDMI".to_string()),
    ];
    let d = devices_from(&names, &Some(Some("Headphones".to_string())));
    let got: Vec<(String, bool)> = d.iter().map(|x| (x.name.clone(), x.is_default)).collect();
    assert_eq!(
        got,
        vec![("Speakers".to_string(), false), ("Headphones".to_string(), true), ("HDMI".to_string(), false)]
    );
    let none = devices_from(&names, &None);
    assert!(none.iter().all(|x| !x.is_default));
}

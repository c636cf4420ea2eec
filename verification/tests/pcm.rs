use vyom::pcm::{decode_frames, find_audio_start, frame_align, full_scale, parse_wav_header};

fn header(channels: u16, rate: u32, data: bool) -> Vec<u8> {
    let mut h = vec![0u8; 44];
    h[0..4].copy_from_slice(b"RIFF");
    h[8..12].copy_from_slice(b"WAVE");
    h[12..16].copy_from_slice(b"fmt ");
    h[22..24].copy_from_slice(&channels.to_le_bytes());
    h[24..28].copy_from_slice(&rate.to_le_bytes());
    if data {
        h[36..40].copy_from_slice(b"data");
    }
    h
}

#[test]
fn test_wav_header() {
    assert_eq!(parse_wav_header(&header(2, 96000, true), 44100, 2), (96000, 2, false));
    assert_eq!(parse_wav_header(&header(1, 48000, false), 44100, 2), (48000, 1, true));
    assert_eq!(parse_wav_header(&header(0, 500, true), 44100, 2), (44100, 2, false));
    assert_eq!(parse_wav_header(&header(9, 400000, true), 48000, 1), (44100, 2, false));
    assert_eq!(parse_wav_header(&vec![7u8; 44], 48000, 6), (48000, 6, false));
}

#[test]
fn test_audio_start() {
    let plain = vec![1u8, 2, 3, 4, 5, 6, 7, 8, 9, 10, 11, 12];
    assert_eq!(find_audio_start(&plain, false), (Some(0), false));
    assert_eq!(find_audio_start(&plain, true), (None, true));
    let mut b = vec![9u8, 9];
    b.extend_from_slice(b"RIFF");
    b.extend_from_slice(&[0u8; 6]);
    b.extend_from_slice(b"data");
    b.extend_from_slice(&[0u8, 0, 0, 0, 1, 2, 3, 4, 5, 6, 7, 8]);
    assert_eq!(find_audio_start(&b, false), (Some(20), false));
    let mut header_only = b"RIFF".to_vec();
    header_only.extend_from_slice(&[0u8; 10]);
    assert_eq!(find_audio_start(&header_only, false), (None, true));
}

#[test]
fn test_frame_align() {
    let (whole, rest) = frame_align(&vec![1, 2, 3], &vec![9, 4, 5, 6, 7, 8], 1, 3);
    assert_eq!(whole, vec![1, 2, 3, 4, 5, 6]);
    assert_eq!(rest, vec![7, 8]);
    let (whole, rest) = frame_align(&vec![], &vec![1, 2, 3, 4, 5, 6, 7, 8], 0, 4);
    assert_eq!(whole.len(), 8);
    assert!(rest.is_empty());
}

#[test]
fn test_decode_frames() {
    assert_eq!(decode_frames(&vec![0x00, 0x80, 0xff, 0x7f], 16, 2), vec![-32768, 32767]);
    assert_eq!(decode_frames(&vec![0x01, 0x00, 0x80, 0xff, 0xff, 0x7f], 24, 2), vec![-8388607, 8388607]);
    assert_eq!(decode_frames(&vec![0, 0, 0, 0x80, 1, 0, 0, 0], 32, 1), vec![i32::MIN, 1]);
    assert_eq!(full_scale(24), 8388608);
}

use std::io::Cursor;
use vyom::cover::{art_rows, decode_picture, embedded_cover, is_drawable, CoverError, RgbPicture};

fn png(width: u32, height: u32, pixels: &[u8]) -> Vec<u8> {
    let img = image::RgbImage::from_raw(width, height, pixels.to_vec()).unwrap();
    let mut out = Cursor::new(Vec::new());
    img.write_to(&mut out, image::ImageFormat::Png).unwrap();
    out.into_inner()
}

fn sample() -> Vec<u8> {
    // 2 wide, 3 high: rows of (red, green), (blue, white), (black, grey).
    vec![255, 0, 0, 0, 255, 0, 0, 0, 255, 255, 255, 255, 0, 0, 0, 128, 128, 128]
}

#[test]
fn test_decode_picture_reads_png() {
    let p = decode_picture(&png(2, 3, &sample())).unwrap();
    assert_eq!((p.width, p.height), (2, 3));
    assert_eq!(p.pixels, sample());
    assert!(is_drawable(&p));
}

#[test]
fn test_decode_picture_refuses_garbage() {
    assert!(matches!(decode_picture(b"not a picture"), Err(CoverError::Undecodable)));
}

#[test]
fn test_embedded_cover_takes_first_marked_picture() {
    let none: Vec<(bool, Vec<u8>)> = vec![(false, png(2, 3, &sample()))];
    assert!(matches!(embedded_cover(&none), Err(CoverError::NoArtwork)));
    assert!(matches!(embedded_cover(&Vec::new()), Err(CoverError::NoArtwork)));
    let one_pixel = png(1, 1, &[9, 8, 7]);
    let pics = vec![(false, one_pixel.clone()), (true, png(2, 3, &sample())), (true, one_pixel)];
    let p = embedded_cover(&pics).unwrap();
    assert_eq!((p.width, p.height), (2, 3));
    let bad = vec![(true, b"garbage".to_vec()), (true, png(2, 3, &sample()))];
    assert!(matches!(embedded_cover(&bad), Err(CoverError::Undecodable)));
}

#[test]
fn test_art_rows_pairs_pixel_rows_and_repeats_odd_last_row() {
    let p = RgbPicture { width: 2, height: 3, pixels: sample() };
    let rows = art_rows(&p, 2, 2);
    assert_eq!(rows.len(), 2);
    assert_eq!(rows[0], vec![((255, 0, 0), (0, 0, 255)), ((0, 255, 0), (255, 255, 255))]);
    assert_eq!(rows[1], vec![((0, 0, 0), (0, 0, 0)), ((128, 128, 128), (128, 128, 128))]);
}

#[test]
fn test_art_rows_centres_vertically_and_keeps_proportions() {
    let p = RgbPicture { width: 2, height: 3, pixels: sample() };
    let rows = art_rows(&p, 2, 4);
    assert_eq!(rows.len(), 3);
    assert!(rows[0].is_empty());
    assert_eq!(rows[1].len(), 2);
    assert!(art_rows(&p, 0, 4).is_empty());
    assert!(art_rows(&p, 2, 0).is_empty());
    let wide = art_rows(&p, 8, 2);
    assert_eq!(wide.len(), 2);
    assert!(wide.iter().all(|r| r.len() < 8));
}

#[test]
fn test_is_drawable_needs_three_bytes_a_pixel() {
    assert!(!is_drawable(&RgbPicture { width: 2, height: 3, pixels: vec![0; 17] }));
    assert!(!is_drawable(&RgbPicture { width: 0, height: 3, pixels: Vec::new() }));
}

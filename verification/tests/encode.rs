use base64::Engine;
use drop_agent::capture::Screenshot;
use drop_agent::encode::{base64_of, encode_screenshot, JPEG_QUALITY};

#[test]
fn base64_of_known_texts() {
    for (plain, coded) in vec![
        ("", ""),
        ("f", "Zg=="),
        ("fo", "Zm8="),
        ("foo", "Zm9v"),
        ("foob", "Zm9vYg=="),
        ("fooba", "Zm9vYmE="),
        ("foobar", "Zm9vYmFy"),
    ] {
        assert_eq!(base64_of(&plain.as_bytes().to_vec()), coded);
    }
    assert_eq!(base64_of(&vec![0xFB, 0xFF, 0xFE]), "+//+");
}

#[test]
fn picture_survives_the_journey() {
    let mut rgba: Vec<u8> = vec![];
    for _ in 0..(16 * 8) {
        rgba.extend_from_slice(&[200, 100, 50, 255]);
    }
    let text = encode_screenshot(Screenshot { width: 16, height: 8, rgba }).unwrap();
    let file = base64::engine::general_purpose::STANDARD.decode(text).unwrap();
    assert_eq!(&file[..3], &[0xFF, 0xD8, 0xFF]);
    let picture = image::load_from_memory(&file).unwrap().to_rgb8();
    assert_eq!(picture.dimensions(), (16, 8));
    let pixel = picture.get_pixel(8, 4).0;
    for (got, meant) in pixel.iter().zip([200i32, 100, 50]) {
        assert!((*got as i32 - meant).abs() <= 6, "{:?}", pixel);
    }
    assert_eq!(JPEG_QUALITY, 85);
}

#[test]
fn equal_pictures_give_equal_texts() {
    let shot = || Screenshot { width: 2, height: 1, rgba: vec![1, 2, 3, 4, 5, 6, 7, 8] };
    assert_eq!(encode_screenshot(shot()), encode_screenshot(shot()));
}

#[test]
fn sides_that_jpeg_cannot_hold() {
    let wide = Screenshot { width: 65536, height: 1, rgba: vec![7; 4 * 65536] };
    assert_eq!(encode_screenshot(wide), None);
    let high = Screenshot { width: 1, height: 65536, rgba: vec![7; 4 * 65536] };
    assert_eq!(encode_screenshot(high), None);
    let limit = Screenshot { width: 65535, height: 1, rgba: vec![7; 4 * 65535] };
    assert!(encode_screenshot(limit).is_some());
    let empty = Screenshot { width: 0, height: 0, rgba: vec![] };
    assert_eq!(encode_screenshot(empty), None);
}

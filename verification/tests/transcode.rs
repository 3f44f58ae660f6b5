use f5_programmability::transcode::{encode_decoded, transcode, TranscodeError};

fn two_pixel_png() -> Vec<u8> {
    // A 1x2 image: red on top, blue below.
    let mut img = image::RgbImage::new(1, 2);
    img.put_pixel(0, 0, image::Rgb([255, 0, 0]));
    img.put_pixel(0, 1, image::Rgb([0, 0, 255]));
    let mut out = std::io::Cursor::new(Vec::new());
    img.write_to(&mut out, image::ImageFormat::Png).unwrap();
    out.into_inner()
}

fn top_pixel(webp: &[u8]) -> [u8; 3] {
    let img = image::load_from_memory(webp).unwrap().to_rgb8();
    img.get_pixel(0, 0).0
}

#[test]
fn png_becomes_webp() {
    let out = transcode(&two_pixel_png(), false).ok().unwrap();
    assert_eq!(&out[0..4], b"RIFF");
    assert_eq!(&out[8..12], b"WEBP");
    assert_eq!(top_pixel(&out), [255, 0, 0]);
}

#[test]
fn upside_down_flips() {
    let out = transcode(&two_pixel_png(), true).ok().unwrap();
    assert_eq!(top_pixel(&out), [0, 0, 255]);
}

#[test]
fn garbage_is_refused() {
    assert!(matches!(transcode(b"not an image", false), Err(TranscodeError::Decode(_))));
}

#[test]
fn decoded_image_is_encoded_flipped_when_asked() {
    let decoded = image::load_from_memory(&two_pixel_png()).unwrap();
    let straight = encode_decoded(decoded.clone(), false).ok().unwrap();
    let flipped = encode_decoded(decoded, true).ok().unwrap();
    assert_eq!(&straight[0..4], b"RIFF");
    assert_eq!(&straight[8..12], b"WEBP");
    assert_eq!(top_pixel(&straight), [255, 0, 0]);
    assert_eq!(top_pixel(&flipped), [0, 0, 255]);
}

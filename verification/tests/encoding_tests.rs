use dim::raw_data::utilities::{build_image_content, dynamic_image_to_base64, image_data_uri};
use image::{DynamicImage, ImageBuffer, Rgba};

const URI_PREFIX: &str = "data:image/png;base64,";

fn small_bitmap() -> DynamicImage {
    DynamicImage::ImageRgba8(ImageBuffer::from_fn(2, 2, |x, y| {
        Rgba([(x * 90) as u8, (y * 90) as u8, 200, 255])
    }))
}

#[test]
fn test_image_data_uri_known_bytes() {
    // base64 of "hello" under the standard alphabet
    let uri = image_data_uri(&b"hello".to_vec());
    assert_eq!(uri, "data:image/png;base64,aGVsbG8=");
}

#[test]
fn test_image_data_uri_empty_payload() {
    assert_eq!(image_data_uri(&Vec::new()), URI_PREFIX);
}

// Round trip: base64-decoding the data-URI payload produced for a known
// small bitmap reproduces the original pixel bytes exactly.
#[test]
fn test_data_uri_round_trip() {
    let original = small_bitmap();
    let uri = build_image_content(&original).unwrap();
    assert!(uri.starts_with(URI_PREFIX));
    let payload = &uri[URI_PREFIX.len()..];
    let png_bytes =
        base64::Engine::decode(&base64::engine::general_purpose::STANDARD, payload).unwrap();
    let reloaded = image::load_from_memory(&png_bytes).unwrap();
    assert_eq!(reloaded.to_rgba8().into_raw(), original.to_rgba8().into_raw());
}

#[test]
fn test_dynamic_image_to_base64_matches_direct_encoding() {
    let original = small_bitmap();
    let encoded = dynamic_image_to_base64(&original).unwrap();
    // re-encode the same image by hand and compare
    let mut raw: Vec<u8> = Vec::new();
    original
        .write_to(&mut std::io::Cursor::new(&mut raw), image::ImageFormat::Png)
        .unwrap();
    let expected = base64::Engine::encode(&base64::engine::general_purpose::STANDARD, &raw);
    assert_eq!(encoded, expected);
}

use opencap::encode::image_to_base64_png;
use opencap::image_data::Image;

#[test]
fn data_url_round_trips_through_png_and_base64() {
    let data: Vec<u8> = vec![
        1, 2, 3, 255, 10, 20, 30, 255, //
        100, 110, 120, 128, 200, 210, 220, 0,
    ];
    let img = Image { width: 2, height: 2, data: data.clone() };
    let url = image_to_base64_png(&img).unwrap();
    let prefix = "data:image/png;base64,";
    assert!(url.starts_with(prefix));
    let b64 = &url[prefix.len()..];
    assert!(!b64.is_empty());
    let png_bytes =
        base64::Engine::decode(&base64::engine::general_purpose::STANDARD, b64).unwrap();
    let decoded = image::load_from_memory(&png_bytes).unwrap().to_rgba8();
    assert_eq!(decoded.dimensions(), (2, 2));
    assert_eq!(decoded.into_raw(), data);
}

#[test]
fn zero_size_image_fails_to_encode() {
    let empty_width = Image { width: 0, height: 3, data: Vec::new() };
    assert_eq!(
        image_to_base64_png(&empty_width).unwrap_err(),
        opencap::errors::EncodeError::PngFailure
    );
    let empty_height = Image { width: 5, height: 0, data: Vec::new() };
    assert!(image_to_base64_png(&empty_height).is_err());
}

#[test]
fn screenshot_filename_wraps_timestamp() {
    let name = opencap::storage::screenshot_filename("2024-01-31_12-30-05");
    assert_eq!(name, "Screenshot_2024-01-31_12-30-05.png");
}

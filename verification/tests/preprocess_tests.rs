//! Tests of the image preprocessing: planar layout, output length,
//! determinism, and rejection of undecodable bytes.

use malaria_inference::config::InferenceConfig;
use malaria_inference::preprocess::preprocess_bytes;

fn png_bytes_rgb(width: u32, height: u32, pixels: &[[u8; 3]]) -> Vec<u8> {
    assert_eq!(pixels.len() as u32, width * height);
    let raw: Vec<u8> = pixels.iter().flat_map(|p| p.iter().copied()).collect();
    let img: image::ImageBuffer<image::Rgb<u8>, Vec<u8>> =
        image::ImageBuffer::from_raw(width, height, raw).unwrap();
    let mut bytes: Vec<u8> = Vec::new();
    img.write_to(
        &mut std::io::Cursor::new(&mut bytes),
        image::ImageFormat::Png,
    )
    .unwrap();
    bytes
}

fn png_bytes_gray(width: u32, height: u32, value: u8) -> Vec<u8> {
    let raw: Vec<u8> = std::iter::repeat(value)
        .take((width * height) as usize)
        .collect();
    let img: image::ImageBuffer<image::Luma<u8>, Vec<u8>> =
        image::ImageBuffer::from_raw(width, height, raw).unwrap();
    let mut bytes: Vec<u8> = Vec::new();
    img.write_to(
        &mut std::io::Cursor::new(&mut bytes),
        image::ImageFormat::Png,
    )
    .unwrap();
    bytes
}

#[test]
fn planar_layout_is_channel_major() {
    // A 2x2 image already at the target size, so no resampling blends the
    // values: the tensor must be the exact planar reordering, all red
    // samples first, then green, then blue. An interleaving bug would
    // fail this.
    let pixels = [
        [10u8, 20, 30],
        [40, 50, 60],
        [70, 80, 90],
        [100, 110, 120],
    ];
    let bytes = png_bytes_rgb(2, 2, &pixels);
    let cfg = InferenceConfig::new(2, 2).unwrap();
    let tensor = preprocess_bytes(&bytes, &cfg).unwrap();
    assert_eq!(
        tensor.data,
        vec![10, 40, 70, 100, 20, 50, 80, 110, 30, 60, 90, 120]
    );
    // Planar addressing: channel 1 (green), pixel 2 of the row-major order.
    assert_eq!(tensor.sample(1, 2), 80);
    assert_eq!(tensor.sample(0, 0), 10);
    assert_eq!(tensor.sample(2, 3), 120);
}

#[test]
fn output_length_is_three_height_width() {
    let cfg = InferenceConfig::new(4, 6).unwrap();

    // An RGB source of a different resolution.
    let pixels: Vec<[u8; 3]> = (0..9u8).map(|i| [i, i, i]).collect();
    let rgb = png_bytes_rgb(3, 3, &pixels);
    let t = preprocess_bytes(&rgb, &cfg).unwrap();
    assert_eq!(t.len(), 3 * 4 * 6);
    assert_eq!(t.data.len(), 3 * 4 * 6);
    assert_eq!(t.height, 4);
    assert_eq!(t.width, 6);

    // A grayscale source: coerced to three channels, same length.
    let gray = png_bytes_gray(8, 2, 77);
    let t = preprocess_bytes(&gray, &cfg).unwrap();
    assert_eq!(t.data.len(), 3 * 4 * 6);
}

#[test]
fn grayscale_replicates_channels() {
    let cfg = InferenceConfig::new(2, 2).unwrap();
    let gray = png_bytes_gray(2, 2, 200);
    let t = preprocess_bytes(&gray, &cfg).unwrap();
    assert_eq!(t.data, vec![200u8; 12]);
}

#[test]
fn preprocessing_is_deterministic() {
    let pixels: Vec<[u8; 3]> = (0..16u8).map(|i| [i, 2 * i, 3 * i]).collect();
    let bytes = png_bytes_rgb(4, 4, &pixels);
    let cfg = InferenceConfig::new(8, 8).unwrap();
    let t1 = preprocess_bytes(&bytes, &cfg).unwrap();
    let t2 = preprocess_bytes(&bytes, &cfg).unwrap();
    assert_eq!(t1.data, t2.data);
    let t3 = preprocess_bytes(&bytes.clone(), &cfg).unwrap();
    assert_eq!(t1.data, t3.data);
}

#[test]
fn garbage_bytes_are_rejected() {
    let cfg = InferenceConfig::new(128, 128).unwrap();
    let garbage: Vec<u8> = vec![7, 1, 255, 3, 9, 200, 4, 5, 6, 42];
    assert!(preprocess_bytes(&garbage, &cfg).is_err());
}

#[test]
fn truncated_image_is_rejected() {
    let pixels = [[1u8, 2, 3], [4, 5, 6], [7, 8, 9], [10, 11, 12]];
    let mut bytes = png_bytes_rgb(2, 2, &pixels);
    bytes.truncate(bytes.len() / 2);
    let cfg = InferenceConfig::new(128, 128).unwrap();
    assert!(preprocess_bytes(&bytes, &cfg).is_err());
}

#[test]
fn empty_bytes_are_rejected() {
    let cfg = InferenceConfig::new(128, 128).unwrap();
    let empty: Vec<u8> = Vec::new();
    assert!(preprocess_bytes(&empty, &cfg).is_err());
}

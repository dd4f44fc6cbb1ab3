use base64::Engine;
use framegrab::encode::{encode_frame_as_base64_jpeg, jpeg_to_text, pack_rows};

fn decode(text: &str) -> Vec<u8> {
    base64::engine::general_purpose::STANDARD.decode(text).unwrap()
}

/// A plane of `height` rows, `stride` bytes apart, with `3 * width` bytes of
/// picture in each row and the byte 0xEE as padding.
fn plane(width: usize, height: usize, stride: usize) -> (Vec<u8>, Vec<u8>) {
    let mut data = vec![0xEEu8; stride * height];
    let mut tight = Vec::new();
    for y in 0..height {
        for x in 0..3 * width {
            let value = ((y * 31 + x * 7) % 251) as u8;
            data[y * stride + x] = value;
            tight.push(value);
        }
    }
    (data, tight)
}

#[test]
fn pack_rows_drops_the_padding() {
    let (data, tight) = plane(5, 4, 32);
    assert_eq!(pack_rows(&data, 32, 5, 4), Some(tight));
}

#[test]
fn pack_rows_of_a_tight_plane_is_the_plane() {
    let (data, tight) = plane(5, 4, 15);
    assert_eq!(data, tight);
    assert_eq!(pack_rows(&data, 15, 5, 4), Some(tight));
}

#[test]
fn pack_rows_exact_bytes() {
    let data: Vec<u8> = vec![1, 2, 3, 4, 5, 6, 0, 0, 7, 8, 9, 10, 11, 12, 0, 0];
    assert_eq!(pack_rows(&data, 8, 2, 2), Some(vec![1, 2, 3, 4, 5, 6, 7, 8, 9, 10, 11, 12]));
}

#[test]
fn pack_rows_last_row_needs_no_padding() {
    let data: Vec<u8> = vec![1, 2, 3, 0, 0, 4, 5, 6];
    assert_eq!(pack_rows(&data, 5, 1, 2), Some(vec![1, 2, 3, 4, 5, 6]));
}

#[test]
fn pack_rows_refuses_a_plane_that_is_too_short() {
    let data: Vec<u8> = vec![1, 2, 3, 0, 0, 4, 5];
    assert_eq!(pack_rows(&data, 5, 1, 2), None);
    assert_eq!(pack_rows(&[], 0, 1, 1), None);
    assert_eq!(pack_rows(&[0u8; 10], usize::MAX, 1, 2), None);
}

#[test]
fn pack_rows_of_nothing() {
    assert_eq!(pack_rows(&[], 0, 0, 0), Some(vec![]));
    assert_eq!(pack_rows(&[], 64, 7, 0), Some(vec![]));
    assert_eq!(pack_rows(&[1, 2, 3], 1, 0, 3), Some(vec![]));
    assert_eq!(pack_rows(&[1, 2, 3], 4, 0, 3), None);
}

#[test]
fn pack_rows_with_overlapping_rows() {
    let data: Vec<u8> = vec![1, 2, 3, 4, 5];
    assert_eq!(pack_rows(&data, 1, 1, 3), Some(vec![1, 2, 3, 2, 3, 4, 3, 4, 5]));
}

#[test]
fn encoded_frame_is_base64_of_a_jpeg_image() {
    let (data, _) = plane(16, 8, 64);
    let text = encode_frame_as_base64_jpeg(&data, 64, 16, 8, 85).unwrap();
    assert!(!text.is_empty());
    assert_eq!(text.len() % 4, 0);
    let bytes = decode(&text);
    assert_eq!(text.len(), 4 * ((bytes.len() + 2) / 3));
    assert_eq!(&bytes[..2], &[0xFF, 0xD8]);
    assert_eq!(&bytes[bytes.len() - 2..], &[0xFF, 0xD9]);
    let picture = image::load_from_memory_with_format(&bytes, image::ImageFormat::Jpeg).unwrap();
    assert_eq!(picture.width(), 16);
    assert_eq!(picture.height(), 8);
}

#[test]
fn encoded_frame_keeps_the_picture() {
    // A picture of one flat colour comes back as that colour, nearly.
    let mut data = Vec::new();
    for _ in 0..8 * 8 {
        data.extend_from_slice(&[200u8, 100, 50]);
    }
    let text = encode_frame_as_base64_jpeg(&data, 24, 8, 8, 100).unwrap();
    let bytes = decode(&text);
    let picture = image::load_from_memory_with_format(&bytes, image::ImageFormat::Jpeg)
        .unwrap()
        .to_rgb8();
    let pixel = picture.get_pixel(3, 3);
    assert!((pixel[0] as i32 - 200).abs() <= 4);
    assert!((pixel[1] as i32 - 100).abs() <= 4);
    assert!((pixel[2] as i32 - 50).abs() <= 4);
}

#[test]
fn padding_does_not_change_the_encoding() {
    let (padded, tight) = plane(10, 6, 48);
    let from_padded = encode_frame_as_base64_jpeg(&padded, 48, 10, 6, 70).unwrap();
    let from_tight = encode_frame_as_base64_jpeg(&tight, 30, 10, 6, 70).unwrap();
    assert_eq!(from_padded, from_tight);
}

#[test]
fn encoding_twice_gives_identical_text() {
    let (data, _) = plane(12, 12, 40);
    let first = encode_frame_as_base64_jpeg(&data, 40, 12, 12, 60).unwrap();
    let second = encode_frame_as_base64_jpeg(&data, 40, 12, 12, 60).unwrap();
    assert_eq!(first, second);
}

#[test]
fn quality_changes_the_encoding() {
    let (data, _) = plane(16, 16, 48);
    let low = encode_frame_as_base64_jpeg(&data, 48, 16, 16, 5).unwrap();
    let high = encode_frame_as_base64_jpeg(&data, 48, 16, 16, 95).unwrap();
    assert_ne!(low, high);
    assert!(low.len() < high.len());
}

#[test]
fn quality_outside_the_range_counts_as_its_nearest_end() {
    let (data, _) = plane(8, 8, 24);
    let zero = encode_frame_as_base64_jpeg(&data, 24, 8, 8, 0).unwrap();
    let one = encode_frame_as_base64_jpeg(&data, 24, 8, 8, 1).unwrap();
    assert_eq!(zero, one);
    let most = encode_frame_as_base64_jpeg(&data, 24, 8, 8, 255).unwrap();
    let hundred = encode_frame_as_base64_jpeg(&data, 24, 8, 8, 100).unwrap();
    assert_eq!(most, hundred);
}

#[test]
fn short_plane_is_an_image_error() {
    let (data, _) = plane(4, 4, 12);
    let err = encode_frame_as_base64_jpeg(&data[..47], 12, 4, 4, 85).unwrap_err();
    assert_eq!(err.code, "IMAGE_ERROR");
    assert_eq!(err.message, "Failed to create image from frame data");
    let err = encode_frame_as_base64_jpeg(&data, 13, 4, 4, 85).unwrap_err();
    assert_eq!(err.code, "IMAGE_ERROR");
}

#[test]
fn picture_without_size_is_an_encode_error() {
    let err = encode_frame_as_base64_jpeg(&[], 0, 0, 0, 85).unwrap_err();
    assert_eq!(err.code, "JPEG_ENCODE_ERROR");
    assert!(err.message.starts_with("Failed to encode JPEG: "));
    assert!(err.message.len() > "Failed to encode JPEG: ".len());
    let err = encode_frame_as_base64_jpeg(&[0u8; 30], 3, 0, 10, 85).unwrap_err();
    assert_eq!(err.code, "JPEG_ENCODE_ERROR");
    let err = encode_frame_as_base64_jpeg(&[0u8; 30], 30, 10, 0, 85).unwrap_err();
    assert_eq!(err.code, "JPEG_ENCODE_ERROR");
}

#[test]
fn picture_too_wide_for_jpeg_is_an_encode_error() {
    let data = vec![0u8; 3 * 65536];
    let err = encode_frame_as_base64_jpeg(&data, 3 * 65536, 65536, 1, 85).unwrap_err();
    assert_eq!(err.code, "JPEG_ENCODE_ERROR");
    assert!(err.message.starts_with("Failed to encode JPEG: "));
    let err = encode_frame_as_base64_jpeg(&data, 3, 1, 65536, 85).unwrap_err();
    assert_eq!(err.code, "JPEG_ENCODE_ERROR");
}

#[test]
fn widest_picture_that_jpeg_takes() {
    let data = vec![128u8; 3 * 65535];
    let text = encode_frame_as_base64_jpeg(&data, 3 * 65535, 65535, 1, 50).unwrap();
    let bytes = decode(&text);
    assert_eq!(&bytes[..2], &[0xFF, 0xD8]);
}

#[test]
fn jpeg_to_text_is_standard_base64_with_padding() {
    assert_eq!(jpeg_to_text(&vec![]).unwrap(), "");
    assert_eq!(jpeg_to_text(&vec![0xFF]).unwrap(), "/w==");
    assert_eq!(jpeg_to_text(&vec![0xFF, 0xD8]).unwrap(), "/9g=");
    assert_eq!(jpeg_to_text(&vec![0xFF, 0xD8, 0xFF]).unwrap(), "/9j/");
    assert_eq!(jpeg_to_text(&b"hello world~".to_vec()).unwrap(), "aGVsbG8gd29ybGR+");
}

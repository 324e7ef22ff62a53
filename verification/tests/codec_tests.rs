use chronosnap::codec::{decode_base64, encode_frame};
use chronosnap::printing::decode_photo_payload;

#[test]
fn encode_frame_returns_tagged_data_url() {
    let pixels = vec![200u8; 2 * 2 * 3];
    let url = encode_frame(&pixels, 2, 2, 90).expect("encoding should succeed");
    assert!(url.starts_with("data:image/jpeg;base64,"));
    assert!(url.len() > "data:image/jpeg;base64,".len());
}

#[test]
fn encode_frame_payload_is_a_jpeg_stream() {
    let pixels = vec![64u8; 4 * 3 * 3];
    let url = encode_frame(&pixels, 4, 3, 80).expect("encoding should succeed");
    let jpeg = decode_photo_payload(&url.into_bytes()).expect("payload should decode");
    // A JPEG stream begins with the SOI marker.
    assert_eq!(&jpeg[..2], &[0xFF, 0xD8]);
}

#[test]
fn encode_frame_quality_changes_the_stream() {
    let mut pixels = Vec::new();
    for i in 0..(16 * 16 * 3) {
        pixels.push((i % 251) as u8);
    }
    let high = encode_frame(&pixels, 16, 16, 95).expect("encoding should succeed");
    let low = encode_frame(&pixels, 16, 16, 5).expect("encoding should succeed");
    assert_ne!(high, low);
}

#[test]
fn encode_frame_rejects_zero_dimensions() {
    let pixels: Vec<u8> = Vec::new();
    assert!(encode_frame(&pixels, 0, 0, 90).is_err());
}

#[test]
fn decode_base64_decodes_standard_text() {
    let decoded = decode_base64(&b"QUJD".to_vec()).expect("valid base64 should decode");
    assert_eq!(decoded, b"ABC".to_vec());
}

#[test]
fn decode_base64_rejects_invalid_text() {
    assert!(decode_base64(&b"!!!".to_vec()).is_err());
}

#[test]
fn decode_base64_of_empty_is_empty() {
    let decoded = decode_base64(&Vec::new()).expect("empty text should decode");
    assert!(decoded.is_empty());
}

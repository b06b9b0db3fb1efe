use base64::Engine;

use mission_control::pairing::{
    base64_text, encode_raster_base64, generate_qr_code_base64, html_data_address,
    ipv4_address_text, pairing_address, PAIRING_CODE_MIN_SIZE,
};
use mission_control::BridgeError;

fn decode_png(text: &str) -> image::GrayImage {
    let png = base64::engine::general_purpose::STANDARD.decode(text).expect("valid base64");
    assert_eq!(&png[..8], &[0x89, b'P', b'N', b'G', 0x0d, 0x0a, 0x1a, 0x0a]);
    let decoded = image::load_from_memory(&png).expect("a PNG file");
    assert_eq!(decoded.color(), image::ColorType::L8);
    decoded.to_luma8()
}

#[test]
fn ipv4_text() {
    assert_eq!(ipv4_address_text(&[192, 168, 1, 20]), "192.168.1.20");
    assert_eq!(ipv4_address_text(&[0, 0, 0, 0]), "0.0.0.0");
    assert_eq!(ipv4_address_text(&[255, 255, 255, 255]), "255.255.255.255");
    assert_eq!(ipv4_address_text(&[10, 0, 99, 7]), "10.0.99.7");
}

#[test]
fn ipv4_text_parses_back() {
    for octets in [[192u8, 168, 1, 20], [0, 0, 0, 0], [255, 255, 255, 255], [1, 20, 100, 9]] {
        let text = ipv4_address_text(&octets);
        let fields: Vec<&str> = text.split('.').collect();
        assert_eq!(fields.len(), 4);
        for (field, octet) in fields.iter().zip(octets) {
            assert!(!field.is_empty() && field.len() <= 3);
            assert!(field.len() == 1 || !field.starts_with('0'));
            assert_eq!(field.parse::<u8>().expect("a decimal octet"), octet);
        }
    }
}

#[test]
fn pairing_address_with_and_without_ip() {
    assert_eq!(pairing_address(Some([192, 168, 1, 20]), 5555), "http://192.168.1.20:5555");
    assert_eq!(pairing_address(None, 5555), "http://localhost:5555");
    assert_eq!(pairing_address(None, 5173), "http://localhost:5173");
}

#[test]
fn base64_known_values() {
    assert_eq!(base64_text(b""), "");
    assert_eq!(base64_text(b"M"), "TQ==");
    assert_eq!(base64_text(b"Ma"), "TWE=");
    assert_eq!(base64_text(b"Man"), "TWFu");
    assert_eq!(base64_text(&[0xfb, 0xff, 0xbf]), "+/+/");
    assert_eq!(base64_text(b"hello world"), "aGVsbG8gd29ybGQ=");
}

#[test]
fn html_data_address_percent_encodes() {
    assert_eq!(html_data_address(""), "data:text/html,");
    assert_eq!(html_data_address("<p class=\"url\">a-b_c.d~</p>"),
        "data:text/html,%3Cp%20class%3D%22url%22%3Ea-b_c.d~%3C%2Fp%3E");
    assert_eq!(html_data_address("é"), "data:text/html,%C3%A9");
}

#[test]
fn pairing_code_has_minimum_size() {
    let text = generate_qr_code_base64("http://192.168.1.20:5555").expect("short URL encodes");
    let raster = decode_png(&text);
    assert!(raster.width() >= PAIRING_CODE_MIN_SIZE);
    assert!(raster.height() >= PAIRING_CODE_MIN_SIZE);
    assert_eq!(raster.width(), raster.height());
    assert!(raster.pixels().all(|p| p.0[0] == 0 || p.0[0] == 255));
    assert!(raster.pixels().any(|p| p.0[0] == 0));
}

#[test]
fn pairing_code_is_deterministic() {
    let a = generate_qr_code_base64("http://localhost:5555").unwrap();
    let b = generate_qr_code_base64("http://localhost:5555").unwrap();
    let c = generate_qr_code_base64("http://localhost:5173").unwrap();
    assert_eq!(a, b);
    assert_ne!(a, c);
}

#[test]
fn pairing_code_too_long_fails() {
    let long = "a".repeat(8000);
    match generate_qr_code_base64(&long) {
        Err(BridgeError::EncodingFailed(message)) => {
            assert!(message.starts_with("Failed to create QR code: "));
        }
        other => panic!("unexpected {:?}", other),
    }
}

#[test]
fn raster_round_trips_through_png() {
    let pixels = vec![0u8, 255, 128, 7, 9, 200];
    let text = encode_raster_base64(&pixels, 3, 2).expect("a small raster encodes");
    let raster = decode_png(&text);
    assert_eq!(raster.width(), 3);
    assert_eq!(raster.height(), 2);
    assert_eq!(raster.into_raw(), pixels);
}

#[test]
fn empty_raster_is_refused() {
    match encode_raster_base64(&[], 0, 0) {
        Err(BridgeError::EncodingFailed(message)) => {
            assert!(message.starts_with("Failed to encode PNG: "));
        }
        other => panic!("unexpected {:?}", other),
    }
}

use terminai_core::driver::{
    classify_method, generate_id, get_timestamp, method_not_found_message, METHOD_NOT_FOUND_CODE, PARSE_ERROR_CODE,
};
use terminai_core::text::{decimal_digits, hex_digit, lower_hex_digits};
use terminai_core::voice::{create_wav_header, wav_from_pcm};
use terminai_core::{DriverMethod, WindowsDriver};

#[test]
fn wav_header_bytes() {
    let h = create_wav_header(100, 22050, 1, 16);
    let mut expected: Vec<u8> = Vec::new();
    expected.extend_from_slice(b"RIFF");
    expected.extend_from_slice(&136u32.to_le_bytes());
    expected.extend_from_slice(b"WAVE");
    expected.extend_from_slice(b"fmt ");
    expected.extend_from_slice(&16u32.to_le_bytes());
    expected.extend_from_slice(&1u16.to_le_bytes());
    expected.extend_from_slice(&1u16.to_le_bytes());
    expected.extend_from_slice(&22050u32.to_le_bytes());
    expected.extend_from_slice(&44100u32.to_le_bytes());
    expected.extend_from_slice(&2u16.to_le_bytes());
    expected.extend_from_slice(&16u16.to_le_bytes());
    expected.extend_from_slice(b"data");
    expected.extend_from_slice(&100u32.to_le_bytes());
    assert_eq!(h, expected);
    assert_eq!(h.len(), 44);
}

#[test]
fn wav_header_stereo_byte_rate() {
    let h = create_wav_header(0, 44100, 2, 16);
    assert_eq!(&h[28..32], &176400u32.to_le_bytes());
    assert_eq!(&h[32..34], &4u16.to_le_bytes());
    assert_eq!(&h[4..8], &36u32.to_le_bytes());
}

#[test]
fn wav_wraps_pcm() {
    let r = wav_from_pcm(vec![1, 2, 3, 4]);
    assert_eq!(r.wav_bytes.len(), 48);
    assert_eq!(&r.wav_bytes[44..], &[1, 2, 3, 4]);
    assert_eq!(&r.wav_bytes[40..44], &4u32.to_le_bytes());
}

#[test]
fn driver_capabilities() {
    let caps = WindowsDriver::new().get_capabilities();
    assert!(caps.can_snapshot && caps.can_click && caps.can_type && caps.can_key && caps.can_inject_input);
    assert!(!caps.can_scroll && !caps.can_ocr && !caps.can_screenshot);
}

#[test]
fn driver_method_dispatch() {
    assert_eq!(classify_method(&"get_capabilities".to_string()), DriverMethod::GetCapabilities);
    assert_eq!(classify_method(&"snapshot".to_string()), DriverMethod::Snapshot);
    assert_eq!(classify_method(&"click".to_string()), DriverMethod::Action);
    assert_eq!(classify_method(&"type".to_string()), DriverMethod::Action);
    assert_eq!(classify_method(&"key".to_string()), DriverMethod::Action);
    assert_eq!(classify_method(&"scroll".to_string()), DriverMethod::Unknown);
    assert_eq!(method_not_found_message("scroll"), "Method not found: scroll");
    assert_eq!(METHOD_NOT_FOUND_CODE, -32601);
    assert_eq!(PARSE_ERROR_CODE, -32700);
}

#[test]
fn driver_ids_and_timestamp() {
    let id = generate_id();
    assert!(!id.is_empty());
    assert!(u128::from_str_radix(&id, 16).is_ok());
    assert_eq!(get_timestamp(), "2025-01-01T00:00:00.000Z");
}

#[test]
fn digit_formatting() {
    assert_eq!(decimal_digits(0), "0");
    assert_eq!(decimal_digits(5001), "5001");
    assert_eq!(decimal_digits(u64::MAX), u64::MAX.to_string());
    assert_eq!(lower_hex_digits(0), "0");
    assert_eq!(lower_hex_digits(0xdead_beef), "deadbeef");
    assert_eq!(lower_hex_digits(u128::MAX), format!("{:x}", u128::MAX));
    assert_eq!(hex_digit(11), 'b');
}

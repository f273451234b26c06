//! Hexadecimal round trips and diagnostics helpers.

use librisync::encoding::{hex_decode, hex_encode};
use librisync::error::truncate;

#[test]
fn test_hex_round_trip_four_bytes() {
    let bytes = vec![0x1a, 0x2b, 0x3c, 0x4d];
    let text = hex_encode(&bytes);
    assert_eq!(text, "1a2b3c4d");
    assert_eq!(hex_decode(&text), Some(bytes));
}

#[test]
fn test_hex_round_trip_sixteen_bytes() {
    let bytes: Vec<u8> = (0..16u8).map(|i| i * 17).collect();
    let text = hex_encode(&bytes);
    assert_eq!(text.len(), 32);
    assert_eq!(hex_decode(&text), Some(bytes));
}

#[test]
fn test_hex_decode_accepts_both_cases() {
    assert_eq!(hex_decode("DEADbeef"), Some(vec![0xde, 0xad, 0xbe, 0xef]));
}

#[test]
fn test_hex_decode_rejects_bad_input() {
    assert_eq!(hex_decode("abc"), None); // odd length
    assert_eq!(hex_decode("zz"), None); // not digits
    assert_eq!(hex_decode(""), Some(Vec::new()));
}

#[test]
fn test_truncate() {
    assert_eq!(truncate("hello", 10), "hello");
    assert_eq!(truncate("hello world", 5), "hello...");
}

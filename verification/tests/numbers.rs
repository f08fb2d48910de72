//! Number rendering and parsing.

use wdscli::numbers::{dec_string, format_fixed_hex, hex_string, parse_dec, parse_hex};

#[test]
fn hex_parsing_accepts_both_cases() {
    assert_eq!(parse_hex("ff"), Some(255));
    assert_eq!(parse_hex("FF"), Some(255));
    assert_eq!(parse_hex("DeadBeef"), Some(0xdeadbeef));
    assert_eq!(parse_hex("0"), Some(0));
    assert_eq!(parse_hex("00000000100"), Some(0x100));
}

#[test]
fn hex_parsing_rejects_bad_input() {
    assert_eq!(parse_hex(""), None);
    assert_eq!(parse_hex("12g4"), None);
    assert_eq!(parse_hex("0x12"), None);
    assert_eq!(parse_hex(" 12"), None);
}

#[test]
fn hex_parsing_handles_the_u64_boundary() {
    assert_eq!(parse_hex("ffffffffffffffff"), Some(u64::MAX));
    assert_eq!(parse_hex("10000000000000000"), None);
    assert_eq!(parse_hex("0000ffffffffffffffff"), Some(u64::MAX));
}

#[test]
fn hex_rendering() {
    assert_eq!(hex_string(0), "0");
    assert_eq!(hex_string(0xdeadbeef), "deadbeef");
    assert_eq!(format_fixed_hex(255, 4), "00ff");
    assert_eq!(format_fixed_hex(255, 2), "ff");
    assert_eq!(format_fixed_hex(255, 1), "ff");
    assert_eq!(format_fixed_hex(u64::MAX, 11), "ffffffffffffffff");
}

#[test]
fn decimal_parsing() {
    assert_eq!(parse_dec("500"), Some(500));
    assert_eq!(parse_dec("0"), Some(0));
    assert_eq!(parse_dec("64"), Some(64));
    assert_eq!(parse_dec(""), None);
    assert_eq!(parse_dec("12a"), None);
    assert_eq!(parse_dec("-1"), None);
    assert_eq!(parse_dec("18446744073709551615"), Some(u64::MAX));
    assert_eq!(parse_dec("18446744073709551616"), None);
    assert_eq!(parse_dec("99999999999999999999"), None);
}

#[test]
fn decimal_rendering() {
    assert_eq!(dec_string(0), "0");
    assert_eq!(dec_string(429), "429");
    assert_eq!(dec_string(u64::MAX), "18446744073709551615");
}

#[test]
fn hex_round_trip_on_sample_values() {
    for v in [0u64, 1, 15, 16, 255, 0x100, 0xdeadbeef, u64::MAX] {
        let rendered = hex_string(v);
        assert_eq!(parse_hex(&rendered), Some(v));
    }
}

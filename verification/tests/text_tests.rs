use kc_osm::text::{ascii_string, contains_nul, i32_to_decimal, optional_text, push_decimal, push_hex, text_or};

#[test]
fn decimal_rendering() {
    assert_eq!(i32_to_decimal(0), "0");
    assert_eq!(i32_to_decimal(7), "7");
    assert_eq!(i32_to_decimal(-10), "-10");
    assert_eq!(i32_to_decimal(i32::MAX), "2147483647");
    assert_eq!(i32_to_decimal(i32::MIN), "-2147483648");
}

#[test]
fn hex_digits() {
    let mut out = Vec::new();
    push_hex(&mut out, 0x7BFD, 4);
    push_hex(&mut out, 0xA, 2);
    push_hex(&mut out, 0x1234, 2);
    assert_eq!(out, b"7BFD0A34".to_vec());
}

#[test]
fn decimal_digits() {
    let mut out = b"x".to_vec();
    push_decimal(&mut out, 40302);
    assert_eq!(out, b"x40302".to_vec());
}

#[test]
fn ascii_bytes_to_string() {
    assert_eq!(ascii_string(&b"AZ09-".to_vec()), "AZ09-");
}

#[test]
fn nul_detection() {
    assert!(!contains_nul("plain"));
    assert!(contains_nul("a\0b"));
    assert!(contains_nul("\0"));
    assert!(!contains_nul(""));
    assert!(!contains_nul("h\u{e9}llo"));
}

#[test]
fn c_text_fallbacks() {
    assert_eq!(text_or(Some(b"abc"), "fb"), "abc");
    assert_eq!(text_or(None, "fb"), "fb");
    assert_eq!(text_or(Some(&[0xFF]), "fb"), "fb");
    assert_eq!(optional_text(Some("C:\\Games\\Thief2".as_bytes())), Some("C:\\Games\\Thief2".to_string()));
    assert_eq!(optional_text(Some(&[0xFF])), None);
    assert_eq!(optional_text(None), None);
}

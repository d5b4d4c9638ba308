use sidecar_link::text::{contains_bytes, decimal_string, parse_port, trim_bounds, utf8_valid};

#[test]
fn parses_plain_port() {
    assert_eq!(parse_port(b"54321"), Some(54321));
}

#[test]
fn parses_port_with_surrounding_whitespace() {
    assert_eq!(parse_port(b"  8080\r\n"), Some(8080));
    assert_eq!(parse_port(b"\t9999\n"), Some(9999));
}

#[test]
fn parses_port_with_plus_sign() {
    assert_eq!(parse_port(b"+123"), Some(123));
}

#[test]
fn parses_port_boundaries() {
    assert_eq!(parse_port(b"0"), Some(0));
    assert_eq!(parse_port(b"65535"), Some(65535));
    assert_eq!(parse_port(b"65536"), None);
    assert_eq!(parse_port(b"999999999999"), None);
}

#[test]
fn rejects_non_numeric_chunks() {
    assert_eq!(parse_port(b""), None);
    assert_eq!(parse_port(b"   "), None);
    assert_eq!(parse_port(b"+"), None);
    assert_eq!(parse_port(b"-1"), None);
    assert_eq!(parse_port(b"12a4"), None);
    assert_eq!(parse_port(b"port 8080"), None);
    assert_eq!(parse_port(b"12 34"), None);
}

#[test]
fn trims_ascii_whitespace_only() {
    let v = b" \t hello \n";
    let (lo, hi) = trim_bounds(v);
    assert_eq!(&v[lo..hi], b"hello");
    let w = b"";
    let (lo, hi) = trim_bounds(w);
    assert_eq!(lo, hi);
}

#[test]
fn renders_decimals() {
    assert_eq!(decimal_string(0), "0");
    assert_eq!(decimal_string(7), "7");
    assert_eq!(decimal_string(8080), "8080");
    assert_eq!(decimal_string(65535), "65535");
}

#[test]
fn finds_substrings() {
    assert!(contains_bytes(b"INFO: Uvicorn running", b"Uvicorn"));
    assert!(contains_bytes(b"abc", b""));
    assert!(contains_bytes(b"abc", b"abc"));
    assert!(!contains_bytes(b"abc", b"abcd"));
    assert!(!contains_bytes(b"Uvicor", b"Uvicorn"));
    assert!(!contains_bytes(b"", b"x"));
}

#[test]
fn checks_utf8() {
    assert!(utf8_valid(b"hello"));
    assert!(utf8_valid("héllo".as_bytes()));
    assert!(!utf8_valid(&[0xff, 0xfe]));
}

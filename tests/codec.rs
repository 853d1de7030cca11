use tippytap::{InterfaceName, StringError, IFNAMSIZ};

fn round_trip(s: &str) -> Result<String, StringError> {
    InterfaceName::from_str(s)?.to_string()
}

#[test]
fn capacity_matches_platform() {
    assert_eq!(IFNAMSIZ, libc::IFNAMSIZ);
}

#[test]
fn round_trip_short_names() {
    for s in ["a", "tun0", "tap12", "my-bridge_port", "abcdefghijklmn"] {
        assert_eq!(round_trip(s).unwrap(), s);
    }
}

#[test]
fn round_trip_longest_name() {
    let s = "abcdefghijklmno";
    assert_eq!(s.len(), 15);
    assert_eq!(round_trip(s).unwrap(), s);
}

#[test]
fn encode_writes_bytes_then_zeros() {
    let n = InterfaceName::from_str("tun0").unwrap();
    let mut expected = [0u8; 16];
    expected[..4].copy_from_slice(b"tun0");
    assert_eq!(n.name, expected);
}

#[test]
fn empty_name_is_all_zero() {
    let n = InterfaceName::from_str("").unwrap();
    assert_eq!(n.name, [0u8; 16]);
    assert_eq!(InterfaceName::empty().name, [0u8; 16]);
}

#[test]
fn all_zero_buffer_decodes_to_empty() {
    assert_eq!(InterfaceName::empty().to_string().unwrap(), "");
}

#[test]
fn sixteen_bytes_is_too_long() {
    let s = "abcdefghijklmnop";
    assert_eq!(s.len(), 16);
    assert_eq!(InterfaceName::from_str(s).unwrap_err(), StringError::StringTooLong(16));
}

#[test]
fn long_name_is_too_long() {
    let s = "a".repeat(40);
    assert_eq!(InterfaceName::from_str(&s).unwrap_err(), StringError::StringTooLong(16));
}

#[test]
fn buffer_without_terminator_is_mangled() {
    let n = InterfaceName { name: [b'a'; 16] };
    assert_eq!(n.to_string().unwrap_err(), StringError::MangledString);
    let n = InterfaceName { name: [0xC3; 16] };
    assert_eq!(n.to_string().unwrap_err(), StringError::MangledString);
}

#[test]
fn non_ascii_character_position() {
    assert_eq!(InterfaceName::from_str("abc\u{e9}d").unwrap_err(), StringError::InvalidCharacter(3));
    assert_eq!(InterfaceName::from_str("\u{1f600}").unwrap_err(), StringError::InvalidCharacter(0));
    assert_eq!(InterfaceName::from_str("\u{e9}\u{e9}x").unwrap_err(), StringError::InvalidCharacter(0));
}

#[test]
fn position_counts_characters_not_bytes() {
    assert_eq!(InterfaceName::from_str("a\u{e9}b\u{e8}").unwrap_err(), StringError::InvalidCharacter(1));
    assert_eq!(InterfaceName::from_str("ab\u{20ac}\u{20ac}c").unwrap_err(), StringError::InvalidCharacter(2));
}

#[test]
fn characters_are_checked_before_length() {
    let s = format!("{}\u{e9}", "a".repeat(20));
    assert_eq!(InterfaceName::from_str(&s).unwrap_err(), StringError::InvalidCharacter(20));
}

#[test]
fn embedded_zero_is_rejected() {
    assert_eq!(InterfaceName::from_str("ab\0c").unwrap_err(), StringError::UnexpectedNull(2));
    assert_eq!(InterfaceName::from_str("\0").unwrap_err(), StringError::UnexpectedNull(0));
}

#[test]
fn decode_reports_non_ascii_byte() {
    let mut buf = [0u8; 16];
    buf[..3].copy_from_slice(&[b'a', 0xC3, b'b']);
    let n = InterfaceName { name: buf };
    assert_eq!(n.to_string().unwrap_err(), StringError::InvalidCharacter(1));
}

#[test]
fn decode_stops_at_first_zero() {
    let mut buf = [0xFFu8; 16];
    buf[..5].copy_from_slice(b"eth0\0");
    let n = InterfaceName { name: buf };
    assert_eq!(n.to_string().unwrap(), "eth0");
}

#[test]
fn decode_full_length_name() {
    let mut buf = [0u8; 16];
    buf[..15].copy_from_slice(b"abcdefghijklmno");
    let n = InterfaceName { name: buf };
    assert_eq!(n.to_string().unwrap(), "abcdefghijklmno");
}

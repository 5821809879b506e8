use session_engine::escape::{escape, hex_encode};
use session_engine::number::{format_i64, format_u128, format_u64, parse_i64};
use session_engine::text::{bytes_eq, contains_byte, copy_bytes, find, slice_copy, split};

fn owned(parts: &[&str]) -> Vec<Vec<u8>> {
    parts.iter().map(|p| p.as_bytes().to_vec()).collect()
}

#[test]
fn split_keeps_every_piece() {
    assert_eq!(split(b"a|b|c", b'|'), owned(&["a", "b", "c"]));
    assert_eq!(split(b"abc", b'|'), owned(&["abc"]));
}

#[test]
fn split_keeps_empty_pieces() {
    assert_eq!(split(b"", b'|'), owned(&[""]));
    assert_eq!(split(b"|", b'|'), owned(&["", ""]));
    assert_eq!(split(b"a||b", b'|'), owned(&["a", "", "b"]));
    assert_eq!(split(b"a|b||", b'|'), owned(&["a", "b", "", ""]));
    assert_eq!(split(b"|a", b'|'), owned(&["", "a"]));
}

#[test]
fn split_then_join_gives_the_text_back() {
    for text in [&b"x~y|z~~"[..], b"", b"~", b"no separator"] {
        let pieces = split(text, b'~');
        assert_eq!(pieces.join(&b'~'), text.to_vec());
        assert!(pieces.iter().all(|p| !p.contains(&b'~')));
        assert_eq!(pieces.len(), text.iter().filter(|b| **b == b'~').count() + 1);
    }
}

#[test]
fn find_gives_the_first_position() {
    assert_eq!(find(b"key:va:lue", b':'), Some(3));
    assert_eq!(find(b":x", b':'), Some(0));
    assert_eq!(find(b"none", b':'), None);
    assert_eq!(find(b"", b':'), None);
    assert!(contains_byte(b"a(b", b'('));
    assert!(!contains_byte(b"ab", b'('));
}

#[test]
fn bytes_compare_and_copy() {
    assert!(bytes_eq(b"same", b"same"));
    assert!(!bytes_eq(b"same", b"sama"));
    assert!(!bytes_eq(b"same", b"sam"));
    assert!(bytes_eq(b"", b""));
    assert_eq!(copy_bytes(b"copy"), b"copy".to_vec());
    assert_eq!(slice_copy(b"0123456", 2, 5), b"234".to_vec());
    assert_eq!(slice_copy(b"0123456", 3, 3), Vec::<u8>::new());
}

#[test]
fn parse_reads_integers() {
    assert_eq!(parse_i64(b"0"), Some(0));
    assert_eq!(parse_i64(b"12"), Some(12));
    assert_eq!(parse_i64(b"-12"), Some(-12));
    assert_eq!(parse_i64(b"007"), Some(7));
    assert_eq!(parse_i64(b"-0"), Some(0));
    assert_eq!(parse_i64(b"1700000000"), Some(1_700_000_000));
}

#[test]
fn parse_refuses_what_is_no_integer() {
    assert_eq!(parse_i64(b""), None);
    assert_eq!(parse_i64(b"-"), None);
    assert_eq!(parse_i64(b"+1"), None);
    assert_eq!(parse_i64(b"1.5"), None);
    assert_eq!(parse_i64(b"12a"), None);
    assert_eq!(parse_i64(b" 1"), None);
    assert_eq!(parse_i64(b"--1"), None);
    assert_eq!(parse_i64(b"1-"), None);
}

#[test]
fn parse_knows_the_range_of_i64() {
    assert_eq!(parse_i64(b"9223372036854775807"), Some(i64::MAX));
    assert_eq!(parse_i64(b"9223372036854775808"), None);
    assert_eq!(parse_i64(b"-9223372036854775808"), Some(i64::MIN));
    assert_eq!(parse_i64(b"-9223372036854775809"), None);
    assert_eq!(parse_i64(b"99999999999999999999999999"), None);
    assert_eq!(parse_i64(b"00000000000000000000000001"), Some(1));
}

#[test]
fn format_writes_decimal() {
    assert_eq!(format_u64(0), b"0".to_vec());
    assert_eq!(format_u64(9), b"9".to_vec());
    assert_eq!(format_u64(10), b"10".to_vec());
    assert_eq!(format_u64(u64::MAX), b"18446744073709551615".to_vec());
    assert_eq!(format_u128(0), b"0".to_vec());
    assert_eq!(format_u128(u64::MAX as u128 + 1), b"18446744073709551616".to_vec());
    assert_eq!(format_u128(u128::MAX), b"340282366920938463463374607431768211455".to_vec());
    assert_eq!(format_i64(-1), b"-1".to_vec());
    assert_eq!(format_i64(42), b"42".to_vec());
    assert_eq!(format_i64(i64::MIN), b"-9223372036854775808".to_vec());
    assert_eq!(format_i64(i64::MAX), b"9223372036854775807".to_vec());
}

#[test]
fn format_then_parse_gives_the_integer_back() {
    for v in [0i64, 1, -1, 9, 10, -10, 99, 100, 14400, i64::MAX, i64::MIN, -4611686018427387904] {
        assert_eq!(parse_i64(&format_i64(v)), Some(v));
    }
}

#[test]
fn escape_rewrites_reserved_bytes() {
    assert_eq!(escape(b"hello"), b"hello".to_vec());
    assert_eq!(escape(b"a b"), b"a%20b".to_vec());
    assert_eq!(escape(b"50%"), b"50%25".to_vec());
    assert_eq!(escape(b"a/b:c&d|e~f"), b"a%2Fb%3Ac%26d%7Ce%7Ef".to_vec());
    assert_eq!(escape(b"\n"), b"%0A".to_vec());
    assert_eq!(escape(&[0xC3, 0xA9]), b"%C3%A9".to_vec());
    assert_eq!(escape(&[0x7F, 0xFF, 0x00]), b"%7F%FF%00".to_vec());
    assert_eq!(escape(b""), Vec::<u8>::new());
}

#[test]
fn escaped_text_is_safe_on_the_wire() {
    let every: Vec<u8> = (0u8..=255).collect();
    let escaped = escape(&every);
    assert!(escaped.iter().all(|b| *b == b'%' || (*b > 32 && *b < 127 && !b"&/:|~".contains(b))));
}

#[test]
fn hex_is_lower_case() {
    assert_eq!(hex_encode(&[0x00, 0x0f, 0xa9, 0xff]), b"000fa9ff".to_vec());
    assert_eq!(hex_encode(b""), Vec::<u8>::new());
}

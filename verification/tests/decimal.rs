use wclicker::decimal::{format_u64, parse_u64};

#[test]
fn parse_accepts_plain_and_plus_signed_digits() {
    assert_eq!(parse_u64("42"), Some(42));
    assert_eq!(parse_u64("+7"), Some(7));
    assert_eq!(parse_u64("007"), Some(7));
    assert_eq!(parse_u64("18446744073709551615"), Some(u64::MAX));
}

#[test]
fn parse_rejects_other_text() {
    for s in ["", "+", "-1", " 5", "5 ", "12a", "1_000", "++1", "18446744073709551616", "é", "٣"] {
        assert_eq!(parse_u64(s), None, "{s:?}");
    }
}

#[test]
fn parse_agrees_with_std() {
    for s in ["0", "+0", "50", "-0", "99999999999999999999", "4294967296", "+", "x", "3.5", "1e3"] {
        assert_eq!(parse_u64(s), s.parse::<u64>().ok(), "{s:?}");
    }
}

#[test]
fn format_writes_canonical_decimal() {
    assert_eq!(format_u64(0), "0");
    assert_eq!(format_u64(50), "50");
    assert_eq!(format_u64(1000), "1000");
    assert_eq!(format_u64(u64::MAX), u64::MAX.to_string());
}

#[test]
fn format_then_parse_gives_the_number_back() {
    for n in [0u64, 1, 9, 10, 99, 100, 12345, u64::MAX - 1, u64::MAX] {
        assert_eq!(parse_u64(&format_u64(n)), Some(n));
    }
}

use wcp::text::{log_line, parse_u64, parse_u8, push_dec, push_signed_dec};

#[test]
fn parse_u64_reads_plain_digits() {
    assert_eq!(parse_u64("125839485729304958"), Some(125839485729304958));
    assert_eq!(parse_u64("0"), Some(0));
    assert_eq!(parse_u64("007"), Some(7));
}

#[test]
fn parse_u64_accepts_a_leading_plus() {
    assert_eq!(parse_u64("+42"), Some(42));
}

#[test]
fn parse_u64_refuses_what_std_refuses() {
    for s in ["", "+", "-1", "-", " 1", "1 ", "1_000", "12a", "++1", "١٢"] {
        assert_eq!(parse_u64(s), None, "{s:?}");
        assert_eq!(s.parse::<u64>().ok(), None, "{s:?}");
    }
}

#[test]
fn parse_u64_bounds() {
    assert_eq!(parse_u64("18446744073709551615"), Some(u64::MAX));
    assert_eq!(parse_u64("18446744073709551616"), None);
    assert_eq!(parse_u64("99999999999999999999x"), None);
}

#[test]
fn parse_u8_bounds() {
    assert_eq!(parse_u8("255"), Some(255));
    assert_eq!(parse_u8("256"), None);
    assert_eq!(parse_u8("10"), Some(10));
}

#[test]
fn parse_agrees_with_std_on_samples() {
    for s in ["0", "1", "+0", "255", "256", "65535", "4294967296", "+18446744073709551615", "x", "", "1e3"] {
        assert_eq!(parse_u64(s), s.parse::<u64>().ok(), "{s:?}");
        assert_eq!(parse_u8(s), s.parse::<u8>().ok(), "{s:?}");
    }
}

#[test]
fn decimal_rendering() {
    let mut s = String::from("n=");
    push_dec(&mut s, 0);
    assert_eq!(s, "n=0");
    let mut s = String::new();
    push_dec(&mut s, 1517999261743054948);
    assert_eq!(s, "1517999261743054948");
    let mut s = String::new();
    push_dec(&mut s, u64::MAX);
    assert_eq!(s, u64::MAX.to_string());
}

#[test]
fn signed_decimal_rendering() {
    for v in [0i64, 7, -7, 1782410400, i64::MIN, i64::MAX, -10] {
        let mut s = String::new();
        push_signed_dec(&mut s, v);
        assert_eq!(s, v.to_string());
    }
}

#[test]
fn decimal_round_trip_law() {
    for v in [0u64, 9, 10, 99, 100, 123456789, u64::MAX] {
        let mut s = String::new();
        push_dec(&mut s, v);
        assert_eq!(parse_u64(&s), Some(v));
    }
}

#[test]
fn log_line_format() {
    assert_eq!(log_line("2026/06/25 18:00:00", "ready"), "[2026/06/25 18:00:00] ready");
}

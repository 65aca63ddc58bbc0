use spend_draft::decimal::{
    digit_str, format_u64, parse_bounded, parse_number, parse_u64, IntErrorKind,
};

#[test]
fn parse_u64_agrees_with_the_standard_library() {
    let samples = [
        "", "0", "1", "10", "007", "+5", "+", "-", "-1", "+-1", "++1", "1+", "abc", "12a", "a12",
        " 1", "1 ", "1.0", "1_000", "0x1f", "18446744073709551615", "18446744073709551616",
        "99999999999999999999", "000000000000000000000000000001", "+18446744073709551615",
        "٣", "１", "1\n", "\u{0}",
    ];
    for s in samples {
        assert_eq!(parse_u64(s), s.parse::<u64>().ok(), "{:?}", s);
    }
}

#[test]
fn parse_bounded_agrees_with_the_standard_library_on_ports() {
    let samples = ["0", "65535", "65536", "65537", "99999", "+65535", "655350", "8332", "", "x", "+"];
    for s in samples {
        assert_eq!(parse_bounded(s, 0xFFFF), s.parse::<u16>().ok().map(u64::from), "{:?}", s);
        assert_eq!(parse_bounded(s, 0xFFFF_FFFF), s.parse::<u32>().ok().map(u64::from), "{:?}", s);
    }
}

#[test]
fn parse_number_tells_why() {
    assert_eq!(parse_number("", 10), Err(IntErrorKind::Empty));
    assert_eq!(parse_number("+", 10), Err(IntErrorKind::InvalidDigit));
    assert_eq!(parse_number("-", 10), Err(IntErrorKind::InvalidDigit));
    assert_eq!(parse_number("-3", 10), Err(IntErrorKind::InvalidDigit));
    assert_eq!(parse_number("1x", 10), Err(IntErrorKind::InvalidDigit));
    assert_eq!(parse_number("11", 10), Err(IntErrorKind::PosOverflow));
    assert_eq!(parse_number("11x", 10), Err(IntErrorKind::PosOverflow));
    assert_eq!(parse_number("1x1", 10), Err(IntErrorKind::InvalidDigit));
    assert_eq!(parse_number("10", 10), Ok(10));
    assert_eq!(parse_number("+0010", 10), Ok(10));
    assert_eq!(parse_number("0", 0), Ok(0));
    assert_eq!(parse_number("1", 0), Err(IntErrorKind::PosOverflow));
}

#[test]
fn format_u64_writes_decimal() {
    for n in [0u64, 1, 9, 10, 11, 99, 100, 8332, 65_535, 15_000, 4_294_967_295, u64::MAX] {
        assert_eq!(format_u64(n), n.to_string());
        assert_eq!(parse_u64(&format_u64(n)), Some(n));
    }
}

#[test]
fn digit_str_names_each_digit() {
    let all: Vec<&str> = (0u8..10).map(digit_str).collect();
    assert_eq!(all, vec!["0", "1", "2", "3", "4", "5", "6", "7", "8", "9"]);
}

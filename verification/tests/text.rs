use lykrysh::text::{i32_text, parse_i32, parse_i32_or_zero, parse_u8, text_before_colon, trim_text};

#[test]
fn parses_plain_and_signed_numbers() {
    assert_eq!(parse_i32("42"), Some(42));
    assert_eq!(parse_i32("+7"), Some(7));
    assert_eq!(parse_i32("-13"), Some(-13));
    assert_eq!(parse_i32("007"), Some(7));
    assert_eq!(parse_i32("2147483647"), Some(i32::MAX));
    assert_eq!(parse_i32("-2147483648"), Some(i32::MIN));
}

#[test]
fn refuses_what_str_parse_refuses() {
    assert_eq!(parse_i32(""), None);
    assert_eq!(parse_i32("+"), None);
    assert_eq!(parse_i32("-"), None);
    assert_eq!(parse_i32("12a"), None);
    assert_eq!(parse_i32(" 5"), None);
    assert_eq!(parse_i32("2147483648"), None);
    assert_eq!(parse_i32("-2147483649"), None);
    assert_eq!(parse_i32("99999999999999999999999"), None);
    assert_eq!(parse_i32("none"), None);
}

#[test]
fn agrees_with_the_standard_library() {
    for s in ["0", "-0", "+0", "1", "-1", "123456", "--1", "+-1", "1 ", "٣", "2147483647", "2147483648", "-2147483648", "abc", ""] {
        assert_eq!(parse_i32(s), s.parse::<i32>().ok(), "i32 {:?}", s);
        assert_eq!(parse_u8(s), s.parse::<u8>().ok(), "u8 {:?}", s);
    }
}

#[test]
fn u8_parsing_bounds() {
    assert_eq!(parse_u8("255"), Some(255));
    assert_eq!(parse_u8("256"), None);
    assert_eq!(parse_u8("-1"), None);
    assert_eq!(parse_u8("-0"), None);
    assert_eq!(parse_u8("+3"), Some(3));
}

#[test]
fn number_or_zero() {
    assert_eq!(parse_i32_or_zero("17"), 17);
    assert_eq!(parse_i32_or_zero("x"), 0);
    assert_eq!(parse_i32_or_zero(""), 0);
}

#[test]
fn writes_decimal_text() {
    assert_eq!(i32_text(0), "0");
    assert_eq!(i32_text(7), "7");
    assert_eq!(i32_text(-5), "-5");
    assert_eq!(i32_text(1234567), "1234567");
    assert_eq!(i32_text(i32::MAX), "2147483647");
    assert_eq!(i32_text(i32::MIN), "-2147483648");
}

#[test]
fn decimal_text_reads_back() {
    for n in [0, 1, -1, 9, 10, -10, 99, 100, 65535, -65536, i32::MAX, i32::MIN, 1000000007] {
        assert_eq!(i32_text(n), n.to_string());
        assert_eq!(parse_i32(&i32_text(n)), Some(n));
    }
}

#[test]
fn trims_unicode_white_space() {
    assert_eq!(trim_text("  hi \n"), "hi");
    assert_eq!(trim_text("\u{3000}x y\u{a0}"), "x y");
    assert_eq!(trim_text("\t\r\n"), "");
    assert_eq!(trim_text(""), "");
    assert_eq!(trim_text("a"), "a");
    for s in ["  a b  ", "\u{85}z\u{2028}", "\u{180e}q", "x\u{200b}"] {
        assert_eq!(trim_text(s), s.trim(), "{:?}", s);
    }
}

#[test]
fn keeps_the_part_before_the_first_colon() {
    assert_eq!(text_before_colon("1.2.3.4:5678"), "1.2.3.4");
    assert_eq!(text_before_colon("noport"), "noport");
    assert_eq!(text_before_colon(":x"), "");
    assert_eq!(text_before_colon("[::1]:80"), "[");
    assert_eq!(text_before_colon(""), "");
}

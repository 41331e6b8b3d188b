use rsearch::int_parse::IntParser;
use rsearch::int_parse::IntParserErrorKind;

#[test]
fn test_parse_u8_decimal() {
    assert_eq!(IntParser::parse_u8("123").unwrap(), 123u8);
    assert_eq!(IntParser::parse_u8("0").unwrap(), 0u8);
    assert_eq!(IntParser::parse_u8("255").unwrap(), 255u8);
    assert_eq!(IntParser::parse_u8("  42  ").unwrap(), 42u8);
}

#[test]
fn test_parse_u8_hex() {
    assert_eq!(IntParser::parse_u8("0xFF").unwrap(), 255u8);
    assert_eq!(IntParser::parse_u8("0x0").unwrap(), 0u8);
    assert_eq!(IntParser::parse_u8("0xa").unwrap(), 10u8);
    assert_eq!(IntParser::parse_u8("0XFF").unwrap(), 255u8);
}

#[test]
fn test_parse_u8_binary() {
    assert_eq!(IntParser::parse_u8("0b11111111").unwrap(), 255u8);
    assert_eq!(IntParser::parse_u8("0b0").unwrap(), 0u8);
    assert_eq!(IntParser::parse_u8("0B1010").unwrap(), 10u8);
}

#[test]
fn test_parse_u8_octal() {
    assert_eq!(IntParser::parse_u8("0o377").unwrap(), 255u8);
    assert_eq!(IntParser::parse_u8("0o0").unwrap(), 0u8);
    assert_eq!(IntParser::parse_u8("0O12").unwrap(), 10u8);
}

#[test]
fn test_parse_u8_errors() {
    assert!(matches!(
        IntParser::parse_u8("").unwrap_err().kind,
        IntParserErrorKind::Empty
    ));
    assert!(matches!(
        IntParser::parse_u8("   ").unwrap_err().kind,
        IntParserErrorKind::Empty
    ));
    assert!(matches!(
        IntParser::parse_u8("256").unwrap_err().kind,
        IntParserErrorKind::Overflow
    ));
    assert!(matches!(
        IntParser::parse_u8("abc").unwrap_err().kind,
        IntParserErrorKind::Invalid
    ));
    assert!(matches!(
        IntParser::parse_u8("0x").unwrap_err().kind,
        IntParserErrorKind::Invalid
    ));
    assert!(matches!(
        IntParser::parse_u8("0b").unwrap_err().kind,
        IntParserErrorKind::Invalid
    ));
    assert!(matches!(
        IntParser::parse_u8("0o").unwrap_err().kind,
        IntParserErrorKind::Invalid
    ));
}

#[test]
fn test_parse_i8_negative() {
    assert_eq!(IntParser::parse_i8("-128").unwrap(), -128i8);
    assert_eq!(IntParser::parse_i8("127").unwrap(), 127i8);
    assert_eq!(IntParser::parse_i8("-1").unwrap(), -1i8);
}

#[test]
fn test_all_types_basic() {
    // Test basic functionality for all types
    assert_eq!(IntParser::parse_u16("65535").unwrap(), 65535u16);
    assert_eq!(IntParser::parse_i16("-32768").unwrap(), -32768i16);
    assert_eq!(IntParser::parse_u32("4294967295").unwrap(), 4294967295u32);
    assert_eq!(IntParser::parse_i32("-2147483648").unwrap(), -2147483648i32);
    assert_eq!(
        IntParser::parse_u64("18446744073709551615").unwrap(),
        18446744073709551615u64
    );
    assert_eq!(
        IntParser::parse_i64("-9223372036854775808").unwrap(),
        -9223372036854775808i64
    );

    // Test hex
    assert_eq!(IntParser::parse_u16("0xFFFF").unwrap(), 65535u16);
    assert_eq!(IntParser::parse_u32("0xFFFFFFFF").unwrap(), 4294967295u32);

    // Test binary
    assert_eq!(IntParser::parse_u16("0b1111111111111111").unwrap(), 65535u16);

    // Test octal
    assert_eq!(IntParser::parse_u16("0o177777").unwrap(), 65535u16);
}

#[test]
fn test_whitespace_handling() {
    // Test that leading/trailing whitespaces are ignored
    assert_eq!(IntParser::parse_u32("  123  ").unwrap(), 123u32);
    assert_eq!(IntParser::parse_u32("\t456\n").unwrap(), 456u32);
    assert_eq!(IntParser::parse_i32("  -789  ").unwrap(), -789i32);
    assert_eq!(IntParser::parse_u32("  0xFF  ").unwrap(), 255u32);
    assert_eq!(IntParser::parse_u32("  0b1010  ").unwrap(), 10u32);
    assert_eq!(IntParser::parse_u32("  0o17  ").unwrap(), 15u32);
}

#[test]
fn test_u8_overflow() {
    // u8 max is 255
    assert!(matches!(IntParser::parse_u8("256").unwrap_err().kind, IntParserErrorKind::Overflow));
    assert!(matches!(IntParser::parse_u8("300").unwrap_err().kind, IntParserErrorKind::Overflow));
    assert!(matches!(IntParser::parse_u8("0x100").unwrap_err().kind, IntParserErrorKind::Overflow));
    assert!(matches!(IntParser::parse_u8("0b100000000").unwrap_err().kind, IntParserErrorKind::Overflow));
    assert!(matches!(IntParser::parse_u8("0o400").unwrap_err().kind, IntParserErrorKind::Overflow));
    // Negative values should be invalid for unsigned types
    assert!(matches!(IntParser::parse_u8("-1").unwrap_err().kind, IntParserErrorKind::Invalid));
}

#[test]
fn test_i8_overflow_underflow() {
    // i8 range is -128 to 127
    assert!(matches!(IntParser::parse_i8("128").unwrap_err().kind, IntParserErrorKind::Overflow));
    assert!(matches!(IntParser::parse_i8("200").unwrap_err().kind, IntParserErrorKind::Overflow));
    assert!(matches!(IntParser::parse_i8("-129").unwrap_err().kind, IntParserErrorKind::Overflow));
    assert!(matches!(IntParser::parse_i8("-200").unwrap_err().kind, IntParserErrorKind::Overflow));
    assert!(matches!(IntParser::parse_i8("0x80").unwrap_err().kind, IntParserErrorKind::Overflow));
    assert!(matches!(IntParser::parse_i8("0b10000000").unwrap_err().kind, IntParserErrorKind::Overflow));
    assert!(matches!(IntParser::parse_i8("0o200").unwrap_err().kind, IntParserErrorKind::Overflow));
}

#[test]
fn test_u16_overflow() {
    // u16 max is 65535
    assert!(matches!(IntParser::parse_u16("65536").unwrap_err().kind, IntParserErrorKind::Overflow));
    assert!(matches!(IntParser::parse_u16("100000").unwrap_err().kind, IntParserErrorKind::Overflow));
    assert!(matches!(IntParser::parse_u16("0x10000").unwrap_err().kind, IntParserErrorKind::Overflow));
    assert!(matches!(IntParser::parse_u16("0b10000000000000000").unwrap_err().kind, IntParserErrorKind::Overflow));
    assert!(matches!(IntParser::parse_u16("0o200000").unwrap_err().kind, IntParserErrorKind::Overflow));
    // Negative values should be invalid for unsigned types
    assert!(matches!(IntParser::parse_u16("-1").unwrap_err().kind, IntParserErrorKind::Invalid));
}

#[test]
fn test_i16_overflow_underflow() {
    // i16 range is -32768 to 32767
    assert!(matches!(IntParser::parse_i16("32768").unwrap_err().kind, IntParserErrorKind::Overflow));
    assert!(matches!(IntParser::parse_i16("50000").unwrap_err().kind, IntParserErrorKind::Overflow));
    assert!(matches!(IntParser::parse_i16("-32769").unwrap_err().kind, IntParserErrorKind::Overflow));
    assert!(matches!(IntParser::parse_i16("-50000").unwrap_err().kind, IntParserErrorKind::Overflow));
    assert!(matches!(IntParser::parse_i16("0x8000").unwrap_err().kind, IntParserErrorKind::Overflow));
    assert!(matches!(IntParser::parse_i16("0b1000000000000000").unwrap_err().kind, IntParserErrorKind::Overflow));
    assert!(matches!(IntParser::parse_i16("0o100000").unwrap_err().kind, IntParserErrorKind::Overflow));
}

#[test]
fn test_u32_overflow() {
    // u32 max is 4294967295
    assert!(matches!(IntParser::parse_u32("4294967296").unwrap_err().kind, IntParserErrorKind::Overflow));
    assert!(matches!(IntParser::parse_u32("5000000000").unwrap_err().kind, IntParserErrorKind::Overflow));
    assert!(matches!(IntParser::parse_u32("0x100000000").unwrap_err().kind, IntParserErrorKind::Overflow));
    assert!(matches!(IntParser::parse_u32("0b100000000000000000000000000000000").unwrap_err().kind, IntParserErrorKind::Overflow));
    assert!(matches!(IntParser::parse_u32("0o40000000000").unwrap_err().kind, IntParserErrorKind::Overflow));
    // Negative values should be invalid for unsigned types
    assert!(matches!(IntParser::parse_u32("-1").unwrap_err().kind, IntParserErrorKind::Invalid));
}

#[test]
fn test_i32_overflow_underflow() {
    // i32 range is -2147483648 to 2147483647
    assert!(matches!(IntParser::parse_i32("2147483648").unwrap_err().kind, IntParserErrorKind::Overflow));
    assert!(matches!(IntParser::parse_i32("3000000000").unwrap_err().kind, IntParserErrorKind::Overflow));
    assert!(matches!(IntParser::parse_i32("-2147483649").unwrap_err().kind, IntParserErrorKind::Overflow));
    assert!(matches!(IntParser::parse_i32("-3000000000").unwrap_err().kind, IntParserErrorKind::Overflow));
    assert!(matches!(IntParser::parse_i32("0x80000000").unwrap_err().kind, IntParserErrorKind::Overflow));
    assert!(matches!(IntParser::parse_i32("0b10000000000000000000000000000000").unwrap_err().kind, IntParserErrorKind::Overflow));
    assert!(matches!(IntParser::parse_i32("0o20000000000").unwrap_err().kind, IntParserErrorKind::Overflow));
}

#[test]
fn test_u64_overflow() {
    // u64 max is 18446744073709551615
    assert!(matches!(IntParser::parse_u64("18446744073709551616").unwrap_err().kind, IntParserErrorKind::Overflow));
    assert!(matches!(IntParser::parse_u64("20000000000000000000").unwrap_err().kind, IntParserErrorKind::Overflow));
    assert!(matches!(IntParser::parse_u64("0x10000000000000000").unwrap_err().kind, IntParserErrorKind::Overflow));
    assert!(matches!(IntParser::parse_u64("0b10000000000000000000000000000000000000000000000000000000000000000").unwrap_err().kind, IntParserErrorKind::Overflow));
    assert!(matches!(IntParser::parse_u64("0o2000000000000000000000").unwrap_err().kind, IntParserErrorKind::Overflow));
    // Negative values should be invalid for unsigned types
    assert!(matches!(IntParser::parse_u64("-1").unwrap_err().kind, IntParserErrorKind::Invalid));
}

#[test]
fn test_i64_overflow_underflow() {
    // i64 range is -9223372036854775808 to 9223372036854775807
    assert!(matches!(IntParser::parse_i64("9223372036854775808").unwrap_err().kind, IntParserErrorKind::Overflow));
    assert!(matches!(IntParser::parse_i64("10000000000000000000").unwrap_err().kind, IntParserErrorKind::Overflow));
    assert!(matches!(IntParser::parse_i64("-9223372036854775809").unwrap_err().kind, IntParserErrorKind::Overflow));
    assert!(matches!(IntParser::parse_i64("-10000000000000000000").unwrap_err().kind, IntParserErrorKind::Overflow));
    assert!(matches!(IntParser::parse_i64("0x8000000000000000").unwrap_err().kind, IntParserErrorKind::Overflow));
    assert!(matches!(IntParser::parse_i64("0b1000000000000000000000000000000000000000000000000000000000000000").unwrap_err().kind, IntParserErrorKind::Overflow));
    assert!(matches!(IntParser::parse_i64("0o1000000000000000000000").unwrap_err().kind, IntParserErrorKind::Overflow));
}

#[test]
fn test_boundary_values() {
    // Test exact boundary values that should work
    assert_eq!(IntParser::parse_u8("255").unwrap(), 255u8);
    assert_eq!(IntParser::parse_i8("127").unwrap(), 127i8);
    assert_eq!(IntParser::parse_i8("-128").unwrap(), -128i8);

    assert_eq!(IntParser::parse_u16("65535").unwrap(), 65535u16);
    assert_eq!(IntParser::parse_i16("32767").unwrap(), 32767i16);
    assert_eq!(IntParser::parse_i16("-32768").unwrap(), -32768i16);

    assert_eq!(IntParser::parse_u32("4294967295").unwrap(), 4294967295u32);
    assert_eq!(IntParser::parse_i32("2147483647").unwrap(), 2147483647i32);
    assert_eq!(IntParser::parse_i32("-2147483648").unwrap(), -2147483648i32);

    assert_eq!(IntParser::parse_u64("18446744073709551615").unwrap(), 18446744073709551615u64);
    assert_eq!(IntParser::parse_i64("9223372036854775807").unwrap(), 9223372036854775807i64);
    assert_eq!(IntParser::parse_i64("-9223372036854775808").unwrap(), -9223372036854775808i64);
}

#[test]
fn test_hex_overflow() {
    // Test hex overflow for different types
    assert_eq!(IntParser::parse_u8("0xFF").unwrap(), 255u8);
    assert!(matches!(IntParser::parse_u8("0x100").unwrap_err().kind, IntParserErrorKind::Overflow));

    assert_eq!(IntParser::parse_u16("0xFFFF").unwrap(), 65535u16);
    assert!(matches!(IntParser::parse_u16("0x10000").unwrap_err().kind, IntParserErrorKind::Overflow));

    assert_eq!(IntParser::parse_u32("0xFFFFFFFF").unwrap(), 4294967295u32);
    assert!(matches!(IntParser::parse_u32("0x100000000").unwrap_err().kind, IntParserErrorKind::Overflow));

    assert_eq!(IntParser::parse_u64("0xFFFFFFFFFFFFFFFF").unwrap(), 18446744073709551615u64);
    assert!(matches!(IntParser::parse_u64("0x10000000000000000").unwrap_err().kind, IntParserErrorKind::Overflow));
}

#[test]
fn test_binary_overflow() {
    // Test binary overflow for different types
    assert_eq!(IntParser::parse_u8("0b11111111").unwrap(), 255u8);
    assert!(matches!(IntParser::parse_u8("0b100000000").unwrap_err().kind, IntParserErrorKind::Overflow));

    assert_eq!(IntParser::parse_u16("0b1111111111111111").unwrap(), 65535u16);
    assert!(matches!(IntParser::parse_u16("0b10000000000000000").unwrap_err().kind, IntParserErrorKind::Overflow));
}

#[test]
fn test_octal_overflow() {
    // Test octal overflow for different types
    assert_eq!(IntParser::parse_u8("0o377").unwrap(), 255u8);
    assert!(matches!(IntParser::parse_u8("0o400").unwrap_err().kind, IntParserErrorKind::Overflow));

    assert_eq!(IntParser::parse_u16("0o177777").unwrap(), 65535u16);
    assert!(matches!(IntParser::parse_u16("0o200000").unwrap_err().kind, IntParserErrorKind::Overflow));
}

#[test]
fn test_unicode_whitespace_trimming() {
    // Parsing ignores surrounding whitespace beyond ASCII too: the
    // no-break space and its typographic relatives trim away.
    assert_eq!(IntParser::parse_u32("\u{a0}5").unwrap(), 5u32);
    assert_eq!(IntParser::parse_u32("\u{a0}123\u{a0}").unwrap(), 123u32);
    assert_eq!(IntParser::parse_u32("\u{2003}0xFF\u{3000}").unwrap(), 255u32);
    assert_eq!(IntParser::parse_i8("\u{2028}-5\u{1680}").unwrap(), -5i8);
    assert_eq!(IntParser::parse_u8("\u{85}7").unwrap(), 7u8);
    assert_eq!(IntParser::parse_u16("\u{202f}42\u{2029}").unwrap(), 42u16);
    assert_eq!(IntParser::parse_u16(" \u{205f}\u{200a}9\t\u{a0}").unwrap(), 9u16);
    // Whitespace alone, of any width, is an empty input.
    assert!(matches!(
        IntParser::parse_u8("\u{a0}\u{2000}\u{205f}").unwrap_err().kind,
        IntParserErrorKind::Empty
    ));
    // A zero-width space has no White_Space property: not trimmed, invalid.
    assert!(matches!(
        IntParser::parse_u8("\u{200b}5").unwrap_err().kind,
        IntParserErrorKind::Invalid
    ));
}

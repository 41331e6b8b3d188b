use rsearch::inspector::format_number;
use rsearch::inspector::format_signed_number;
use rsearch::inspector::DataInspector;
use rsearch::inspector::Radix;

#[test]
fn test_format_number_radixes() {
    assert_eq!(format_number(42, Radix::Decimal), "42");
    assert_eq!(format_number(42, Radix::Hexadecimal), "0x2A");
    assert_eq!(format_number(42, Radix::Binary), "0b101010");
    assert_eq!(format_number(42, Radix::Octal), "0o52");
    assert_eq!(format_number(0, Radix::Decimal), "0");
    assert_eq!(format_number(0, Radix::Hexadecimal), "0x0");
    assert_eq!(format_number(u64::MAX, Radix::Hexadecimal), "0xFFFFFFFFFFFFFFFF");
}

#[test]
fn test_format_signed_number_radixes() {
    assert_eq!(format_signed_number(-123, Radix::Decimal), "-123");
    assert_eq!(format_signed_number(-1, Radix::Hexadecimal), "-0x1");
    assert_eq!(format_signed_number(-5, Radix::Binary), "-0b101");
    assert_eq!(format_signed_number(-9, Radix::Octal), "-0o11");
    assert_eq!(format_signed_number(123, Radix::Decimal), "123");
    assert_eq!(format_signed_number(i64::MIN, Radix::Hexadecimal), "-0x8000000000000000");
}

#[test]
fn test_interpret_integers() {
    let b = [0x34u8, 0x12, 0xFF, 0x00];
    assert_eq!(DataInspector::intepret_u8(&b, Radix::Decimal), ("u8".to_string(), "52".to_string()));
    assert_eq!(DataInspector::intepret_i8(&[0xFFu8], Radix::Decimal), ("i8".to_string(), "-1".to_string()));
    assert_eq!(
        DataInspector::intepret_u16(&b, Radix::Hexadecimal, true),
        ("u16".to_string(), "0x1234".to_string())
    );
    assert_eq!(
        DataInspector::intepret_u16(&b, Radix::Hexadecimal, false),
        ("u16".to_string(), "0x3412".to_string())
    );
    assert_eq!(
        DataInspector::intepret_i16(&[0xFEu8, 0xFF], Radix::Decimal, true),
        ("i16".to_string(), "-2".to_string())
    );
    assert_eq!(
        DataInspector::intepret_u24(&b, Radix::Hexadecimal, true),
        ("u24".to_string(), "0xFF1234".to_string())
    );
    assert_eq!(
        DataInspector::intepret_i24(&[0xFFu8, 0xFF, 0xFF], Radix::Decimal, true),
        ("i24".to_string(), "-1".to_string())
    );
    assert_eq!(
        DataInspector::intepret_u32(&b, Radix::Hexadecimal, false),
        ("u32".to_string(), "0x3412FF00".to_string())
    );
    assert_eq!(
        DataInspector::intepret_i32(&[0x00u8, 0x00, 0x00, 0x80], Radix::Decimal, true),
        ("i32".to_string(), "-2147483648".to_string())
    );
    let eight = [1u8, 0, 0, 0, 0, 0, 0, 0];
    assert_eq!(
        DataInspector::intepret_u64(&eight, Radix::Decimal, true),
        ("u64".to_string(), "1".to_string())
    );
    assert_eq!(
        DataInspector::intepret_i64(&[0xFFu8; 8], Radix::Decimal, true),
        ("i64".to_string(), "-1".to_string())
    );
}

#[test]
fn test_interpret_too_few_bytes() {
    let b = [0u8; 1];
    assert_eq!(DataInspector::intepret_u16(&b, Radix::Decimal, true).1, "No Data");
    assert_eq!(DataInspector::intepret_u24(&b, Radix::Decimal, true).1, "No Data");
    assert_eq!(DataInspector::intepret_u32(&b, Radix::Decimal, true).1, "No Data");
    assert_eq!(DataInspector::intepret_u64(&b, Radix::Decimal, true).1, "No Data");
    assert_eq!(DataInspector::intepret_u8(&[], Radix::Decimal).1, "No Data");
}

#[test]
fn test_interpret_ascii_and_win1252() {
    assert_eq!(DataInspector::intepret_ascii(&[0x00u8]), ("ASCII".to_string(), "NUL".to_string()));
    assert_eq!(DataInspector::intepret_ascii(&[0x7Fu8]), ("ASCII".to_string(), "DEL".to_string()));
    assert_eq!(DataInspector::intepret_ascii(&[b'A']), ("ASCII".to_string(), "'A'".to_string()));
    assert_eq!(
        DataInspector::intepret_ascii(&[0x80u8]),
        ("Win1252".to_string(), "'\u{20AC}'".to_string())
    );
    assert_eq!(
        DataInspector::intepret_ascii(&[0x81u8]),
        ("Win1252".to_string(), "\u{FFFD}".to_string())
    );
    assert_eq!(
        DataInspector::intepret_ascii(&[0xA0u8]),
        ("Win1252".to_string(), "'\u{A0}'".to_string())
    );
    assert_eq!(DataInspector::intepret_ascii(&[]).1, "No Data");
}

#[test]
fn test_interpret_utf8_readings() {
    assert_eq!(
        DataInspector::interpret_utf8(&[b'h']),
        ("UTF-8(1)".to_string(), "'h'".to_string())
    );
    // The euro sign is three bytes.
    assert_eq!(
        DataInspector::interpret_utf8(&[0xE2u8, 0x82, 0xAC]),
        ("UTF-8(3)".to_string(), "'\u{20AC}'".to_string())
    );
    // A truncated sequence is no data yet.
    assert_eq!(DataInspector::interpret_utf8(&[0xE2u8, 0x82]).1, "No Data");
    // A stray continuation byte is malformed.
    assert_eq!(
        DataInspector::interpret_utf8(&[0x80u8]),
        ("UTF-8".to_string(), "\u{FFFD}".to_string())
    );
    // An overlong two-byte encoding of NUL is malformed.
    assert_eq!(
        DataInspector::interpret_utf8(&[0xC0u8, 0x80]),
        ("UTF-8".to_string(), "\u{FFFD}".to_string())
    );
    // A four-byte character.
    assert_eq!(
        DataInspector::interpret_utf8(&[0xF0u8, 0x9F, 0x98, 0x80]),
        ("UTF-8(4)".to_string(), "'\u{1F600}'".to_string())
    );
}

#[test]
fn test_interpret_utf16_readings() {
    // One unit, little endian.
    assert_eq!(
        DataInspector::interpret_utf16(&[0x41u8, 0x00], true),
        ("UTF-16(1)".to_string(), "'A'".to_string())
    );
    // A surrogate pair, little endian: U+1F600.
    assert_eq!(
        DataInspector::interpret_utf16(&[0x3Du8, 0xD8, 0x00, 0xDE], true),
        ("UTF-16(2)".to_string(), "'\u{1F600}'".to_string())
    );
    // The same pair, big endian.
    assert_eq!(
        DataInspector::interpret_utf16(&[0xD8u8, 0x3D, 0xDE, 0x00], false),
        ("UTF-16(2)".to_string(), "'\u{1F600}'".to_string())
    );
    // A lone low surrogate is malformed.
    assert_eq!(
        DataInspector::interpret_utf16(&[0x00u8, 0xDC], true),
        ("UTF-16".to_string(), "\u{FFFD}".to_string())
    );
    // A high surrogate with a bad partner is malformed.
    assert_eq!(
        DataInspector::interpret_utf16(&[0x3Du8, 0xD8, 0x41, 0x00], true),
        ("UTF-16".to_string(), "\u{FFFD}".to_string())
    );
    // A high surrogate with too few bytes is no data yet.
    assert_eq!(DataInspector::interpret_utf16(&[0x3Du8, 0xD8], true).1, "No Data");
    assert_eq!(DataInspector::interpret_utf16(&[0x41u8], true).1, "No Data");
}

#[test]
fn test_interpret_utf32_readings() {
    assert_eq!(
        DataInspector::interpret_utf32(&[0x41u8, 0x00, 0x00, 0x00], true),
        ("UTF-32".to_string(), "'A'".to_string())
    );
    assert_eq!(
        DataInspector::interpret_utf32(&[0x00u8, 0x00, 0x00, 0x41], false),
        ("UTF-32".to_string(), "'A'".to_string())
    );
    // A surrogate value is no scalar.
    assert_eq!(
        DataInspector::interpret_utf32(&[0x00u8, 0xD8, 0x00, 0x00], true),
        ("UTF-32".to_string(), "\u{FFFD}".to_string())
    );
    assert_eq!(DataInspector::interpret_utf32(&[0x41u8, 0x00], true).1, "No Data");
}

#[test]
fn test_get_data_interpretations_rows() {
    let inspector = DataInspector::new();
    let data = [0x48u8, 0x65, 0x6C, 0x6C, 0x6F, 0x00, 0x12, 0x34];
    let rows = inspector.get_data_interpretations(&data, Some(0));
    assert_eq!(rows.len(), 14);
    assert_eq!(rows[0], ("u8".to_string(), "72".to_string()));
    assert_eq!(rows[10], ("ASCII".to_string(), "'H'".to_string()));
    // Without a selection there is nothing to read.
    let empty_rows = inspector.get_data_interpretations(&data, None);
    assert_eq!(empty_rows.len(), 14);
    assert_eq!(empty_rows[0].1, "No Data");
}

#[test]
fn test_radix_labels() {
    assert_eq!(Radix::Decimal.label(), "Decimal");
    assert_eq!(Radix::Hexadecimal.label(), "Hexadecimal");
    assert_eq!(Radix::Binary.label(), "Binary");
    assert_eq!(Radix::Octal.label(), "Octal");
}

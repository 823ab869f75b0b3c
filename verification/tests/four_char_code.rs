use screencapturekit::four_char_code::FourCharCode;
use screencapturekit::pixel_format::PixelFormat;

#[test]
fn from_chars_packs_big_endian() {
    let code = FourCharCode::from_chars([0x42, 0x47, 0x52, 0x41]);
    assert_eq!(code.into_int(), 0x4247_5241);
}

#[test]
fn into_chars_unpacks_big_endian() {
    let code = FourCharCode::from_int(0x4247_5241);
    assert_eq!(code.into_chars(), [0x42, 0x47, 0x52, 0x41]);
}

#[test]
fn chars_round_trip() {
    let chars = [0x00, 0x7f, 0x80, 0xff];
    let code = FourCharCode::from_chars(chars);
    assert_eq!(code.into_chars(), chars);
    let value = 0xdead_beef;
    assert_eq!(FourCharCode::from_chars(FourCharCode::from_int(value).into_chars()).into_int(), value);
}

#[test]
fn is_ascii_checks_every_byte() {
    assert!(FourCharCode::from_chars([0x42, 0x47, 0x52, 0x41]).is_ascii());
    assert!(FourCharCode::from_chars([0x00, 0x01, 0x7f, 0x20]).is_ascii());
    assert!(!FourCharCode::from_chars([0x42, 0x47, 0x52, 0x80]).is_ascii());
    assert!(!FourCharCode::from_chars([0xc8, 0x47, 0x52, 0x41]).is_ascii());
}

#[test]
fn is_ascii_graphic_checks_the_printable_range() {
    assert!(FourCharCode::from_chars([0x21, 0x42, 0x5a, 0x7e]).is_ascii_graphic());
    assert!(!FourCharCode::from_chars([0x20, 0x42, 0x5a, 0x7e]).is_ascii_graphic());
    assert!(!FourCharCode::from_chars([0x21, 0x42, 0x5a, 0x7f]).is_ascii_graphic());
}

#[test]
fn format_renders_printable_bytes_as_themselves() {
    assert_eq!(FourCharCode::from_chars([0x42, 0x47, 0x52, 0x41]).format(), "BGRA");
    assert_eq!(FourCharCode::from_chars([0x34, 0x32, 0x30, 0x76]).format(), "420v");
}

#[test]
fn format_escapes_control_and_quote_bytes() {
    assert_eq!(FourCharCode::from_chars([0x09, 0x0a, 0x5c, 0x22]).format(), "\\t\\n\\\\\\\"");
    assert_eq!(FourCharCode::from_chars([0x0d, 0x27, 0x41, 0x42]).format(), "\\r\\'AB");
}

#[test]
fn format_escapes_other_bytes_as_hex() {
    assert_eq!(FourCharCode::from_chars([0x00, 0xff, 0x1b, 0x7f]).format(), "\\x00\\xff\\x1b\\x7f");
}

#[test]
fn pixel_formats_map_to_their_codes() {
    assert_eq!(PixelFormat::ARGB8888.to_four_char_code().format(), "BGRA");
    assert_eq!(PixelFormat::ARGB2101010.to_four_char_code().format(), "l10r");
    assert_eq!(PixelFormat::YCbCr420v.to_four_char_code().format(), "420v");
    assert_eq!(PixelFormat::YCbCr420f.to_four_char_code().format(), "420f");
}

#[test]
fn pixel_formats_round_trip_through_their_codes() {
    let formats = [
        PixelFormat::ARGB8888,
        PixelFormat::ARGB2101010,
        PixelFormat::YCbCr420v,
        PixelFormat::YCbCr420f,
    ];
    for f in formats {
        assert_eq!(PixelFormat::from_four_char_code(f.to_four_char_code()), Some(f));
    }
    assert_eq!(PixelFormat::from_four_char_code(FourCharCode::from_int(0)), None);
}

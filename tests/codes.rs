use std::cmp::Ordering;

use four_char_code::{fcc_format, four_char_code, FccBuf, FccConversionError, FourCharCode};

#[test]
fn invalid() {
    assert!(FourCharCode::new(1).is_err());
    assert!(FourCharCode::from_str("").is_err());
    assert!(FourCharCode::from_str("test1").is_err());
    assert!(FourCharCode::from_str("\x7f___").is_err());
}

#[test]
fn valid() {
    let hex = four_char_code("hex_");
    assert_eq!(hex, "hex_");
    let ui32 = FourCharCode::from_str("ui32");
    assert!(ui32.is_ok());
    assert_eq!(ui32.unwrap(), "ui32");
}

#[test]
fn format() {
    let f1mn = fcc_format(&format!("F{}Mn", 1));
    assert!(f1mn.is_ok());
    assert_eq!(f1mn.unwrap(), "F1Mn");
}

#[test]
fn printable_bytes_pack_big_endian() {
    let c = FourCharCode::from_array([b'a', b'b', b'c', b'd']).unwrap();
    assert_eq!(c.to_u32(), 0x6162_6364);
    let edge = FourCharCode::from_array([0x20, 0x7e, 0x20, 0x7e]).unwrap();
    assert_eq!(edge.to_u32(), 0x207e_207e);
    assert_eq!(u32::from(edge), 0x207e_207e);
}

#[test]
fn wrong_lengths() {
    assert_eq!(FourCharCode::from_str(""), Err(FccConversionError::TooShort));
    assert_eq!(FourCharCode::from_str("ab"), Err(FccConversionError::TooShort));
    assert_eq!(FourCharCode::from_str("abc"), Err(FccConversionError::TooShort));
    assert_eq!(FourCharCode::from_str("test1"), Err(FccConversionError::TooLong));
    assert_eq!(FourCharCode::from_str("toolong1"), Err(FccConversionError::TooLong));
    assert_eq!(FourCharCode::from_slice(&[b'a'; 9]), Err(FccConversionError::TooLong));
    // two characters, four bytes of UTF-8: the byte length decides
    assert_eq!(FourCharCode::from_str("éé"), Err(FccConversionError::InvalidChar));
}

#[test]
fn all_zeros_become_spaces() {
    let c = FourCharCode::from_array([0, 0, 0, 0]).unwrap();
    assert_eq!(c.to_string(), "    ");
    assert_eq!(c.to_u32(), 0x2020_2020);
}

#[test]
fn trailing_zeros_become_spaces() {
    let c = FourCharCode::from_array([b'a', b'b', 0, 0]).unwrap();
    assert_eq!(c.to_string(), "ab  ");
    assert_eq!(FourCharCode::new(0x6162_6300).unwrap().to_string(), "abc ");
}

#[test]
fn zero_before_non_zero_is_invalid() {
    assert_eq!(FourCharCode::from_array([b'a', 0, b'b', 0]), Err(FccConversionError::InvalidChar));
    assert_eq!(FourCharCode::from_array([0, b'a', b'b', b'c']), Err(FccConversionError::InvalidChar));
}

#[test]
fn out_of_range_bytes_are_invalid() {
    assert_eq!(
        FourCharCode::from_array([0x7f, b'_', b'_', b'_']),
        Err(FccConversionError::InvalidChar)
    );
    assert_eq!(FourCharCode::from_array([b'a', 0x1f, b'b', b'c']), Err(FccConversionError::InvalidChar));
    assert_eq!(FourCharCode::from_array([b'a', b'b', b'c', 0x80]), Err(FccConversionError::InvalidChar));
    assert_eq!(FourCharCode::new(1), Err(FccConversionError::InvalidChar));
}

#[test]
fn text_round_trip() {
    for text in ["hex_", "ui32", "    ", "~ !A", "F1Mn"] {
        let c = FourCharCode::from_str(text).unwrap();
        assert_eq!(c.to_string(), text);
        assert_eq!(FourCharCode::from_str(&c.to_string()), Ok(c));
    }
}

#[test]
fn ordering_follows_bytes() {
    let abcd = FourCharCode::from_str("abcd").unwrap();
    let abce = FourCharCode::from_str("abce").unwrap();
    let b = FourCharCode::from_str("b   ").unwrap();
    assert!(abcd < abce);
    assert!(abce < b);
    assert!(abcd.to_u32() < abce.to_u32());
    assert_eq!(abcd.partial_cmp(&abcd), Some(Ordering::Equal));
    assert_eq!(b.partial_cmp(&abcd), Some(Ordering::Greater));
    assert_eq!(abcd.cmp(&b), Ordering::Less);
    assert!(abcd < "abce");
    assert!(abce > "abcd");
    assert_eq!(abcd.partial_cmp(&0x6162_6364u32), Some(Ordering::Equal));
    assert_eq!(abcd.partial_cmp(&[b'a', b'b', b'c', b'c']), Some(Ordering::Greater));
}

#[test]
fn literal_constructor_matches_text() {
    assert_eq!(four_char_code("hex_"), FourCharCode::from_str("hex_").unwrap());
    assert_eq!(four_char_code("    "), FourCharCode::default());
    assert_eq!(FourCharCode::default().to_u32(), 0x2020_2020);
}

#[test]
fn format_errors() {
    assert_eq!(fcc_format(&format!("F{}Mn!", 1)), Err(FccConversionError::TooLong));
    assert_eq!(fcc_format("F1Mn\n"), Err(FccConversionError::InvalidChar));
    assert_eq!(fcc_format("F\u{7}Mn"), Err(FccConversionError::InvalidChar));
    assert_eq!(fcc_format("Fé"), Err(FccConversionError::InvalidChar));
    assert_eq!(fcc_format("F1"), Err(FccConversionError::TooShort));
    assert_eq!(fcc_format(""), Err(FccConversionError::TooShort));
    assert_eq!(fcc_format("F1Mn\u{7f}"), Err(FccConversionError::InvalidChar));
    assert_eq!(fcc_format("F1Mnx\u{7f}"), Err(FccConversionError::TooLong));
}

#[test]
fn format_buffer_steps() {
    let mut buf = FccBuf::new();
    assert_eq!(buf.finish(), Err(FccConversionError::TooShort));
    assert_eq!(buf.write_str("F1"), Ok(()));
    assert_eq!(buf.write_char('\u{1b}'), Err(FccConversionError::InvalidChar));
    assert_eq!(buf.write_str("Mn"), Ok(()));
    assert_eq!(buf.write_char('x'), Err(FccConversionError::TooLong));
    assert_eq!(buf.finish(), Ok(FourCharCode::from_str("F1Mn").unwrap()));
}

#[test]
fn mismatched_representations_compare_false() {
    let c = FourCharCode::from_str("abcd").unwrap();
    let long: &[u8] = b"abcde";
    assert!(c != long);
    assert_eq!(c.partial_cmp(long), None);
    assert!(c != "abcde");
    assert_eq!(c.partial_cmp("ab"), None);
    assert!(c != [b'a', 0, b'c', b'd']);
    assert!(c != 1u32);
    assert_eq!(c.partial_cmp(&1u32), None);
    let same: &[u8] = b"abcd";
    assert!(c == same);
    assert!(c == [b'a', b'b', b'c', b'd']);
    assert!(c == 0x6162_6364u32);
}

#[test]
fn zero_padded_representations_compare_equal() {
    let c = FourCharCode::from_str("ab  ").unwrap();
    assert!(c == [b'a', b'b', 0, 0]);
    assert!(c == 0x6162_0000u32);
}

#[test]
fn normalize_keeps_valid_codes() {
    let mut c = FourCharCode::from_str("ab  ").unwrap();
    c.normalize();
    assert_eq!(c.to_string(), "ab  ");
    let u = FourCharCode::new_unchecked(0x6162_0000);
    assert_eq!(u, c);
}

#[test]
fn error_descriptions() {
    assert_eq!(FccConversionError::TooLong.description(), "four char code is too long");
    assert_eq!(FccConversionError::TooShort.description(), "four char code is too short");
    assert_eq!(FccConversionError::InvalidChar.description(), "invalid char in four char code");
}

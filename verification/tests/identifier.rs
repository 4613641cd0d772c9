use beatsaver_rs::map_id::{MapId, MapIdError};
use beatsaver_rs::radix::{parse_hex_usize, u64_to_dec, usize_to_dec, usize_to_hex, IntParseError};

#[test]
fn short_hex_input_parses_as_key() {
    assert_eq!(MapId::parse("2144"), Ok(MapId::Key(0x2144)));
}

#[test]
fn uppercase_hex_key_is_accepted() {
    assert_eq!(MapId::parse("ABC"), Ok(MapId::Key(0xabc)));
}

#[test]
fn forty_hex_characters_parse_as_hash() {
    let h = "fda568fc27c20d21f8dc6f3709b49b5cc96723be";
    assert_eq!(MapId::parse(h), Ok(MapId::Hash(String::from(h))));
}

#[test]
fn forty_characters_with_non_hex_are_invalid_hash() {
    let h = "zda568fc27c20d21f8dc6f3709b49b5cc96723be";
    assert_eq!(h.len(), 40);
    assert_eq!(MapId::parse(h), Err(MapIdError::InvalidHash));
}

#[test]
fn non_hex_input_of_other_length_is_digit_error() {
    assert_eq!(
        MapId::parse("xyz"),
        Err(MapIdError::ParseIntError(IntParseError::InvalidDigit))
    );
}

#[test]
fn empty_input_is_empty_error() {
    assert_eq!(MapId::parse(""), Err(MapIdError::ParseIntError(IntParseError::Empty)));
}

#[test]
fn oversized_key_is_overflow_error() {
    assert_eq!(
        MapId::parse("fffffffffffffffff"),
        Err(MapIdError::ParseIntError(IntParseError::PosOverflow))
    );
}

#[test]
fn largest_key_parses_exactly() {
    assert_eq!(MapId::parse("ffffffffffffffff"), Ok(MapId::Key(usize::MAX)));
}

#[test]
fn map_id_error_messages() {
    assert_eq!(MapIdError::InvalidHash.message(), "Specified hash is invalid");
    assert_eq!(
        MapIdError::ParseIntError(IntParseError::Empty).message(),
        "cannot parse integer from empty string"
    );
    assert_eq!(
        MapIdError::ParseIntError(IntParseError::InvalidDigit).message(),
        "invalid digit found in string"
    );
    assert_eq!(
        MapIdError::ParseIntError(IntParseError::PosOverflow).message(),
        "number too large to fit in target type"
    );
}

#[test]
fn hex_parse_and_render_round_trip() {
    assert_eq!(parse_hex_usize("2144"), Ok(0x2144));
    assert_eq!(usize_to_hex(0x2144), "2144");
    assert_eq!(usize_to_hex(0), "0");
    assert_eq!(usize_to_hex(0xdeadbeef), "deadbeef");
    assert_eq!(parse_hex_usize(&usize_to_hex(987654321)), Ok(987654321));
}

#[test]
fn decimal_rendering_is_exact() {
    assert_eq!(usize_to_dec(0), "0");
    assert_eq!(usize_to_dec(3536), "3536");
    assert_eq!(u64_to_dec(5000), "5000");
    assert_eq!(u64_to_dec(u64::MAX), "18446744073709551615");
}

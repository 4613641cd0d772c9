//! Parsed, validated identifiers for map resources.
//!
//! A map is addressed either by a numeric key, written in hexadecimal, or by
//! its forty-character hexadecimal content hash.  Parsing a free-form string
//! never panics: malformed input yields a typed error.
use vstd::prelude::*;

use crate::radix::{all_hex, hex_seq_value, str_is_hex, parse_hex_usize, IntParseError};

verus! {

/// Error type for parsing a map identifier.
#[derive(Debug, Clone, Copy, PartialEq, Eq, Structural)]
pub enum MapIdError {
    /// The input had the length of a content hash but held a character that
    /// is not a hexadecimal digit.
    InvalidHash,
    /// The input was read as a hexadecimal key and failed to parse.
    ParseIntError(IntParseError),
}

impl MapIdError {
    /// Human-readable description of the error.
    pub fn message(&self) -> (r: String)
        ensures
            ({
                match self {
                    MapIdError::InvalidHash => r@ == "Specified hash is invalid"@,
                    MapIdError::ParseIntError(IntParseError::Empty) => r@
                        == "cannot parse integer from empty string"@,
                    MapIdError::ParseIntError(IntParseError::InvalidDigit) => r@
                        == "invalid digit found in string"@,
                    MapIdError::ParseIntError(IntParseError::PosOverflow) => r@
                        == "number too large to fit in target type"@,
                }
            }),
    {
        match self {
            MapIdError::InvalidHash => String::from_str("Specified hash is invalid"),
            MapIdError::ParseIntError(IntParseError::Empty) => String::from_str(
                "cannot parse integer from empty string",
            ),
            MapIdError::ParseIntError(IntParseError::InvalidDigit) => String::from_str(
                "invalid digit found in string",
            ),
            MapIdError::ParseIntError(IntParseError::PosOverflow) => String::from_str(
                "number too large to fit in target type",
            ),
        }
    }
}

/// Specifier used to index a map.
#[derive(Debug, Clone, PartialEq, Eq)]
pub enum MapId {
    /// The identifier is a numeric map key (e.g. the hexadecimal text `2144`).
    Key(usize),
    /// The identifier is a map content hash: forty hexadecimal characters.
    Hash(String),
}

/// True when `s` is well-formed as a map content hash.
pub open spec fn is_hash_text(s: Seq<char>) -> bool {
    s.len() == 40 && all_hex(s)
}

impl MapId {
    /// Parses a free-form identifier string.
    ///
    /// A string of exactly forty characters is read as a content hash and
    /// must be all hexadecimal digits; any other string is read as a
    /// hexadecimal numeric key.
    pub fn parse(s: &str) -> (r: Result<MapId, MapIdError>)
        ensures
            ({
                let cs = s@;
                if cs.len() == 40 {
                    if all_hex(cs) {
                        &&& r is Ok
                        &&& r->Ok_0 is Hash
                        &&& r->Ok_0->Hash_0@ == cs
                    } else {
                        r == Err::<MapId, MapIdError>(MapIdError::InvalidHash)
                    }
                } else if cs.len() == 0 {
                    r == Err::<MapId, MapIdError>(
                        MapIdError::ParseIntError(IntParseError::Empty),
                    )
                } else if !all_hex(cs) {
                    r == Err::<MapId, MapIdError>(
                        MapIdError::ParseIntError(IntParseError::InvalidDigit),
                    )
                } else if hex_seq_value(cs) > usize::MAX {
                    r == Err::<MapId, MapIdError>(
                        MapIdError::ParseIntError(IntParseError::PosOverflow),
                    )
                } else {
                    r == Ok::<MapId, MapIdError>(MapId::Key(hex_seq_value(cs) as usize))
                }
            }),
    {
        if s.unicode_len() == 40 {
            if str_is_hex(s) {
                Ok(MapId::Hash(String::from_str(s)))
            } else {
                Err(MapIdError::InvalidHash)
            }
        } else {
            match parse_hex_usize(s) {
                Ok(k) => Ok(MapId::Key(k)),
                Err(e) => Err(MapIdError::ParseIntError(e)),
            }
        }
    }
}

} // verus!

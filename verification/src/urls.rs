//! Construction of the request URLs the API understands.
//!
//! Every path form is pinned exactly by contract: numeric keys appear in
//! lowercase hexadecimal, page numbers in decimal, and free-text queries are
//! percent-encoded.
use vstd::prelude::*;

use vstd::string::StringSliceAdditionalSpecFns;
use crate::map_id::MapId;
use crate::radix::{hex_render, dec_render, usize_to_hex, usize_to_dec};

verus! {

/// The base URL of the API; every request path is appended to it.
pub fn beatsaver_url() -> (r: String)
    ensures
        r@ == "https://beatsaver.com/"@,
{
    String::from_str("https://beatsaver.com/")
}

/// True when `b` passes through percent-encoding unchanged: ASCII
/// alphanumerics and `-`, `.`, `_`, `~`.
pub open spec fn is_url_safe_byte(b: u8) -> bool {
    ||| (48 <= b && b <= 57)  // '0' ..= '9'
    ||| (65 <= b && b <= 90)  // 'A' ..= 'Z'
    ||| (97 <= b && b <= 122)  // 'a' ..= 'z'
    ||| b == 45  // '-'
    ||| b == 46  // '.'
    ||| b == 95  // '_'
    ||| b == 126  // '~'
}

/// Uppercase hexadecimal digit character for a value below sixteen.
pub open spec fn hex_digit_upper(d: int) -> char {
    if d == 0 { '0' } else if d == 1 { '1' } else if d == 2 { '2' } else if d == 3 { '3' }
    else if d == 4 { '4' } else if d == 5 { '5' } else if d == 6 { '6' } else if d == 7 { '7' }
    else if d == 8 { '8' } else if d == 9 { '9' } else if d == 10 { 'A' } else if d == 11 { 'B' }
    else if d == 12 { 'C' } else if d == 13 { 'D' } else if d == 14 { 'E' } else { 'F' }
}

/// The three characters a percent-escaped byte expands to.
pub open spec fn percent_byte(b: u8) -> Seq<char> {
    seq!['%', hex_digit_upper(b as int / 16), hex_digit_upper(b as int % 16)]
}

/// Percent-encoding of a byte string: safe bytes stand for themselves,
/// every other byte becomes a `%`-escape with uppercase hex digits.
pub open spec fn percent_encoding(bs: Seq<u8>) -> Seq<char>
    decreases bs.len(),
{
    if bs.len() == 0 {
        Seq::empty()
    } else {
        (if is_url_safe_byte(bs[0]) {
            seq![bs[0] as char]
        } else {
            percent_byte(bs[0])
        }) + percent_encoding(bs.drop_first())
    }
}

/// Relies on `urlencoding::encode`: percent-encodes every byte of the
/// string's UTF-8 form except ASCII alphanumerics and `-`, `.`, `_`, `~`,
/// writing escapes with uppercase hexadecimal digits.
#[verifier::external_body]
pub(crate) fn encode_query(s: &str) -> (r: String)
    ensures
        r@ == percent_encoding(s.spec_bytes()),
{
    urlencoding::encode(s).into_owned()
}

/// The sort orders a maps listing can be requested in.
#[derive(Debug, Clone, Copy, PartialEq, Eq, Structural)]
pub enum MapSort {
    /// Currently trending maps.
    Hot,
    /// Maps sorted by rating.
    Rating,
    /// Maps sorted by upload time.
    Latest,
    /// Maps sorted by total downloads.
    Downloads,
    /// Maps sorted by number of plays.
    Plays,
}

/// The path segment each sort order selects.
pub open spec fn sort_segment(s: MapSort) -> Seq<char> {
    match s {
        MapSort::Hot => "hot"@,
        MapSort::Rating => "rating"@,
        MapSort::Latest => "latest"@,
        MapSort::Downloads => "downloads"@,
        MapSort::Plays => "plays"@,
    }
}

/// URL of a map's detail record, addressed by numeric key.
pub fn map_detail_url(key: usize) -> (r: String)
    ensures
        r@ == "https://beatsaver.com/api/maps/detail/"@ + hex_render(key as int),
{
    let mut s = String::from_str("https://beatsaver.com/api/maps/detail/");
    let k = usize_to_hex(key);
    s.append(k.as_str());
    s
}

/// URL of a map's detail record, addressed by content hash.
pub fn map_hash_url(hash: &str) -> (r: String)
    ensures
        r@ == "https://beatsaver.com/api/maps/by-hash/"@ + hash@,
{
    let mut s = String::from_str("https://beatsaver.com/api/maps/by-hash/");
    s.append(hash);
    s
}

/// URL of one page of the maps uploaded by a user.
pub fn maps_uploader_url(user_id: &str, page: usize) -> (r: String)
    ensures
        r@ == "https://beatsaver.com/api/maps/uploader/"@ + user_id@ + "/"@ + dec_render(
            page as int,
        ),
{
    let mut s = String::from_str("https://beatsaver.com/api/maps/uploader/");
    s.append(user_id);
    s.append("/");
    let p = usize_to_dec(page);
    s.append(p.as_str());
    s
}

/// URL of one page of a maps listing in the given sort order.
pub fn maps_sort_url(sort: MapSort, page: usize) -> (r: String)
    ensures
        r@ == "https://beatsaver.com/api/maps/"@ + sort_segment(sort) + "/"@ + dec_render(
            page as int,
        ),
{
    let mut s = String::from_str("https://beatsaver.com/api/maps/");
    match sort {
        MapSort::Hot => s.append("hot"),
        MapSort::Rating => s.append("rating"),
        MapSort::Latest => s.append("latest"),
        MapSort::Downloads => s.append("downloads"),
        MapSort::Plays => s.append("plays"),
    }
    s.append("/");
    let p = usize_to_dec(page);
    s.append(p.as_str());
    s
}

/// URL of one page of text-search results for a free-text query.
pub fn search_text_url(query: &str, page: usize) -> (r: String)
    ensures
        r@ == "https://beatsaver.com/api/search/text/"@ + dec_render(page as int) + "?q="@
            + percent_encoding(query.spec_bytes()),
{
    let mut s = String::from_str("https://beatsaver.com/api/search/text/");
    let p = usize_to_dec(page);
    s.append(p.as_str());
    s.append("?q=");
    let q = encode_query(query);
    s.append(q.as_str());
    s
}

/// URL of one page of advanced-search results for a query.
pub fn search_advanced_url(query: &str, page: usize) -> (r: String)
    ensures
        r@ == "https://beatsaver.com/api/search/advanced/"@ + dec_render(page as int) + "?q="@
            + percent_encoding(query.spec_bytes()),
{
    let mut s = String::from_str("https://beatsaver.com/api/search/advanced/");
    let p = usize_to_dec(page);
    s.append(p.as_str());
    s.append("?q=");
    let q = encode_query(query);
    s.append(q.as_str());
    s
}

/// URL of a user record.
pub fn user_find_url(user_id: &str) -> (r: String)
    ensures
        r@ == "https://beatsaver.com/api/users/find/"@ + user_id@,
{
    let mut s = String::from_str("https://beatsaver.com/api/users/find/");
    s.append(user_id);
    s
}

/// Download URL of a map: numeric keys are rendered in the same
/// hexadecimal text form they were parsed from.
pub fn download_url(id: &MapId) -> (r: String)
    ensures
        ({
            match id {
                MapId::Key(k) => r@ == "https://beatsaver.com/api/download/key/"@ + hex_render(
                    *k as int,
                ),
                MapId::Hash(h) => r@ == "https://beatsaver.com/api/download/hash/"@ + h@,
            }
        }),
{
    match id {
        MapId::Key(k) => {
            let mut s = String::from_str("https://beatsaver.com/api/download/key/");
            let t = usize_to_hex(*k);
            s.append(t.as_str());
            s
        },
        MapId::Hash(h) => {
            let mut s = String::from_str("https://beatsaver.com/api/download/hash/");
            s.append(h.as_str());
            s
        },
    }
}

} // verus!

//! Hexadecimal and decimal text forms of machine integers.
//!
//! Map keys travel in URLs in lowercase hexadecimal, page numbers in decimal,
//! and map hashes and user ids are validated as hexadecimal text.  The
//! functions here parse and render those forms, proved against direct
//! mathematical definitions of digit strings.
use vstd::prelude::*;

verus! {

/// True when `c` is an ASCII hexadecimal digit, of either case.
pub open spec fn is_hex_char(c: char) -> bool {
    ('0' <= c && c <= '9') || ('a' <= c && c <= 'f') || ('A' <= c && c <= 'F')
}

/// Numeric value of a hexadecimal digit (meaningful only when `is_hex_char(c)`).
pub open spec fn hex_char_value(c: char) -> int {
    if '0' <= c && c <= '9' {
        c as int - '0' as int
    } else if 'a' <= c && c <= 'f' {
        c as int - 'a' as int + 10
    } else if 'A' <= c && c <= 'F' {
        c as int - 'A' as int + 10
    } else {
        0
    }
}

/// True when every character of `s` is a hexadecimal digit.
pub open spec fn all_hex(s: Seq<char>) -> bool {
    forall|i: int| 0 <= i < s.len() ==> is_hex_char(#[trigger] s[i])
}

/// The number denoted by `s` read as big-endian hexadecimal digits.
pub open spec fn hex_seq_value(s: Seq<char>) -> int
    decreases s.len(),
{
    if s.len() == 0 {
        0
    } else {
        hex_seq_value(s.drop_last()) * 16 + hex_char_value(s.last())
    }
}

/// Lowercase digit character for a value below sixteen.
pub open spec fn hex_digit_lower(d: int) -> char {
    if d == 0 { '0' } else if d == 1 { '1' } else if d == 2 { '2' } else if d == 3 { '3' }
    else if d == 4 { '4' } else if d == 5 { '5' } else if d == 6 { '6' } else if d == 7 { '7' }
    else if d == 8 { '8' } else if d == 9 { '9' } else if d == 10 { 'a' } else if d == 11 { 'b' }
    else if d == 12 { 'c' } else if d == 13 { 'd' } else if d == 14 { 'e' } else { 'f' }
}

/// Shortest lowercase hexadecimal rendering of a nonnegative number.
pub open spec fn hex_render(n: int) -> Seq<char>
    decreases n,
{
    if n < 16 {
        seq![hex_digit_lower(n)]
    } else {
        hex_render(n / 16) + seq![hex_digit_lower(n % 16)]
    }
}

/// Digit character for a value below ten.
pub open spec fn dec_digit(d: int) -> char {
    if d == 0 { '0' } else if d == 1 { '1' } else if d == 2 { '2' } else if d == 3 { '3' }
    else if d == 4 { '4' } else if d == 5 { '5' } else if d == 6 { '6' } else if d == 7 { '7' }
    else if d == 8 { '8' } else { '9' }
}

/// Shortest decimal rendering of a nonnegative number.
pub open spec fn dec_render(n: int) -> Seq<char>
    decreases n,
{
    if n < 10 {
        seq![dec_digit(n)]
    } else {
        dec_render(n / 10) + seq![dec_digit(n % 10)]
    }
}

/// True when `c` is a hexadecimal digit.
pub fn hex_char_valid(c: char) -> (b: bool)
    ensures
        b == is_hex_char(c),
{
    ('0' <= c && c <= '9') || ('a' <= c && c <= 'f') || ('A' <= c && c <= 'F')
}

/// True when every character of `s` is a hexadecimal digit.
pub fn str_is_hex(s: &str) -> (b: bool)
    ensures
        b == all_hex(s@),
{
    let n = s.unicode_len();
    let mut i: usize = 0;
    while i < n
        invariant
            n == s@.len(),
            0 <= i <= n,
            forall|j: int| 0 <= j < i ==> is_hex_char(#[trigger] s@[j]),
        decreases n - i,
    {
        if !hex_char_valid(s.get_char(i)) {
            return false;
        }
        i = i + 1;
    }
    true
}

/// Reason a digit string failed to parse as an integer.
#[derive(Debug, Clone, Copy, PartialEq, Eq, Structural)]
pub enum IntParseError {
    /// The input held no characters.
    Empty,
    /// A character was not a digit of the expected radix.
    InvalidDigit,
    /// The denoted number does not fit in the target type.
    PosOverflow,
}

proof fn lemma_hex_seq_value_nonneg(s: Seq<char>)
    ensures
        hex_seq_value(s) >= 0,
    decreases s.len(),
{
    if s.len() > 0 {
        lemma_hex_seq_value_nonneg(s.drop_last());
    }
}

proof fn lemma_hex_seq_value_prefix_le(s: Seq<char>, i: int)
    requires
        0 <= i <= s.len(),
    ensures
        hex_seq_value(s.subrange(0, i)) <= hex_seq_value(s),
    decreases s.len() - i,
{
    if i < s.len() {
        lemma_hex_seq_value_prefix_le(s, i + 1);
        let p = s.subrange(0, i);
        let q = s.subrange(0, i + 1);
        assert(q.drop_last() =~= p);
        lemma_hex_seq_value_nonneg(p);
    } else {
        assert(s.subrange(0, i) =~= s);
    }
}

/// Parses `s` as a big-endian hexadecimal number.
///
/// Accepts only digit characters: no sign, no prefix, no whitespace.
pub fn parse_hex_usize(s: &str) -> (r: Result<usize, IntParseError>)
    ensures
        s@.len() == 0 ==> r == Err::<usize, IntParseError>(IntParseError::Empty),
        s@.len() > 0 && !all_hex(s@) ==> r == Err::<usize, IntParseError>(
            IntParseError::InvalidDigit,
        ),
        s@.len() > 0 && all_hex(s@) && hex_seq_value(s@) > usize::MAX ==> r == Err::<
            usize,
            IntParseError,
        >(IntParseError::PosOverflow),
        s@.len() > 0 && all_hex(s@) && hex_seq_value(s@) <= usize::MAX ==> r == Ok::<
            usize,
            IntParseError,
        >(hex_seq_value(s@) as usize),
{
    let n = s.unicode_len();
    if n == 0 {
        return Err(IntParseError::Empty);
    }
    if !str_is_hex(s) {
        return Err(IntParseError::InvalidDigit);
    }
    let mut acc: usize = 0;
    let mut i: usize = 0;
    while i < n
        invariant
            n == s@.len(),
            0 <= i <= n,
            all_hex(s@),
            acc == hex_seq_value(s@.subrange(0, i as int)),
        decreases n - i,
    {
        let c = s.get_char(i);
        let d = hex_char_digit(c);
        proof {
            assert(s@.subrange(0, i + 1).drop_last() =~= s@.subrange(0, i as int));
        }
        if acc > (usize::MAX - d) / 16 {
            proof {
                lemma_hex_seq_value_prefix_le(s@, i + 1);
            }
            return Err(IntParseError::PosOverflow);
        }
        acc = acc * 16 + d;
        i = i + 1;
    }
    proof {
        assert(s@.subrange(0, n as int) =~= s@);
    }
    Ok(acc)
}

/// Numeric value of a hexadecimal digit character.
fn hex_char_digit(c: char) -> (d: usize)
    requires
        is_hex_char(c),
    ensures
        d == hex_char_value(c),
        d < 16,
{
    if '0' <= c && c <= '9' {
        (c as usize) - ('0' as usize)
    } else if 'a' <= c && c <= 'f' {
        (c as usize) - ('a' as usize) + 10
    } else {
        (c as usize) - ('A' as usize) + 10
    }
}

/// Lowercase digit character of a value below sixteen, as a borrowed string.
fn hex_digit_str(d: usize) -> (r: &'static str)
    requires
        d < 16,
    ensures
        r@ =~= seq![hex_digit_lower(d as int)],
{
    proof {
        reveal_strlit("0");
        reveal_strlit("1");
        reveal_strlit("2");
        reveal_strlit("3");
        reveal_strlit("4");
        reveal_strlit("5");
        reveal_strlit("6");
        reveal_strlit("7");
        reveal_strlit("8");
        reveal_strlit("9");
        reveal_strlit("a");
        reveal_strlit("b");
        reveal_strlit("c");
        reveal_strlit("d");
        reveal_strlit("e");
        reveal_strlit("f");
    }
    if d == 0 { "0" } else if d == 1 { "1" } else if d == 2 { "2" } else if d == 3 { "3" }
    else if d == 4 { "4" } else if d == 5 { "5" } else if d == 6 { "6" } else if d == 7 { "7" }
    else if d == 8 { "8" } else if d == 9 { "9" } else if d == 10 { "a" } else if d == 11 { "b" }
    else if d == 12 { "c" } else if d == 13 { "d" } else if d == 14 { "e" } else { "f" }
}

/// Renders `n` in lowercase hexadecimal, the form map keys take in URLs.
pub fn usize_to_hex(n: usize) -> (r: String)
    ensures
        r@ == hex_render(n as int),
    decreases n,
{
    if n < 16 {
        String::from_str(hex_digit_str(n))
    } else {
        let mut s = usize_to_hex(n / 16);
        s.append(hex_digit_str(n % 16));
        s
    }
}

/// Digit character of a value below ten, as a borrowed string.
fn dec_digit_str(d: usize) -> (r: &'static str)
    requires
        d < 10,
    ensures
        r@ =~= seq![dec_digit(d as int)],
{
    proof {
        reveal_strlit("0");
        reveal_strlit("1");
        reveal_strlit("2");
        reveal_strlit("3");
        reveal_strlit("4");
        reveal_strlit("5");
        reveal_strlit("6");
        reveal_strlit("7");
        reveal_strlit("8");
        reveal_strlit("9");
    }
    if d == 0 { "0" } else if d == 1 { "1" } else if d == 2 { "2" } else if d == 3 { "3" }
    else if d == 4 { "4" } else if d == 5 { "5" } else if d == 6 { "6" } else if d == 7 { "7" }
    else if d == 8 { "8" } else { "9" }
}

/// Renders `n` in decimal, the form page numbers take in request paths.
pub fn usize_to_dec(n: usize) -> (r: String)
    ensures
        r@ == dec_render(n as int),
    decreases n,
{
    if n < 10 {
        String::from_str(dec_digit_str(n))
    } else {
        let mut s = usize_to_dec(n / 10);
        s.append(dec_digit_str(n % 10));
        s
    }
}

/// Renders `n` in decimal; the wider form used for millisecond durations.
pub fn u64_to_dec(n: u64) -> (r: String)
    ensures
        r@ == dec_render(n as int),
    decreases n,
{
    if n < 10 {
        String::from_str(dec_digit_str(n as usize))
    } else {
        let mut s = u64_to_dec(n / 10);
        s.append(dec_digit_str((n % 10) as usize));
        s
    }
}

/// A rendered hexadecimal number parses back to itself: the key of a map is
/// put into a URL in exactly the form that yields the same key when read.
pub proof fn lemma_hex_round_trip(n: int)
    requires
        n >= 0,
    ensures
        all_hex(hex_render(n)),
        hex_seq_value(hex_render(n)) == n,
    decreases n,
{
    if n < 16 {
        let s = hex_render(n);
        assert(s =~= seq![hex_digit_lower(n)]);
        assert(s.drop_last() =~= Seq::<char>::empty());
        assert(hex_seq_value(Seq::<char>::empty()) == 0);
        assert(s.len() == 1);
        assert(s.last() == hex_digit_lower(n));
        assert(hex_seq_value(s) == hex_seq_value(s.drop_last()) * 16 + hex_char_value(s.last()));
        assert(hex_seq_value(s) == hex_char_value(hex_digit_lower(n)));
    } else {
        lemma_hex_round_trip(n / 16);
        let s = hex_render(n);
        assert(s.drop_last() =~= hex_render(n / 16));
        assert(s.last() == hex_digit_lower(n % 16));
        assert(hex_char_value(hex_digit_lower(n % 16)) == n % 16);
        assert(hex_seq_value(s) == (n / 16) * 16 + n % 16);
    }
}

} // verus!

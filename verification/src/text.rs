//! Small pieces of text handling the protocols need: hexadecimal and decimal
//! rendering of bytes, substring search and prefix removal.
use vstd::prelude::*;

verus! {

/// The lowercase hexadecimal digit for `d` (`0 <= d < 16`).
pub open spec fn hex_char(d: int) -> char {
    if d == 0 { '0' } else if d == 1 { '1' } else if d == 2 { '2' } else if d == 3 { '3' }
    else if d == 4 { '4' } else if d == 5 { '5' } else if d == 6 { '6' } else if d == 7 { '7' }
    else if d == 8 { '8' } else if d == 9 { '9' } else if d == 10 { 'a' } else if d == 11 { 'b' }
    else if d == 12 { 'c' } else if d == 13 { 'd' } else if d == 14 { 'e' } else { 'f' }
}

/// A byte as two lowercase hexadecimal digits, zero-padded (`0a`, `ff`).
pub open spec fn hex2(b: u8) -> Seq<char> {
    seq![hex_char(b as int / 16), hex_char(b as int % 16)]
}

/// A byte in decimal, without leading zeros (`0`, `7`, `42`, `255`).
pub open spec fn dec_u8(b: u8) -> Seq<char> {
    if b < 10 {
        seq![hex_char(b as int)]
    } else if b < 100 {
        seq![hex_char(b as int / 10), hex_char(b as int % 10)]
    } else {
        seq![hex_char(b as int / 100), hex_char((b as int / 10) % 10), hex_char(b as int % 10)]
    }
}

/// Appends the digit `d` (`d < 16`) to `s`.
pub fn push_digit(s: &mut String, d: u8)
    requires
        d < 16,
    ensures
        final(s)@ == old(s)@.push(hex_char(d as int)),
{
    let digits = "0123456789abcdef";
    proof {
        reveal_strlit("0123456789abcdef");
    }
    let one = digits.substring_char(d as usize, d as usize + 1);
    assert(one@ =~= seq![hex_char(d as int)]);
    s.append(one);
}

/// Appends `b` as two lowercase hexadecimal digits.
pub fn push_hex2(s: &mut String, b: u8)
    ensures
        final(s)@ == old(s)@ + hex2(b),
{
    push_digit(s, b / 16);
    push_digit(s, b % 16);
    assert(final(s)@ =~= old(s)@ + hex2(b));
}

/// Appends `b` in decimal.
pub fn push_dec_u8(s: &mut String, b: u8)
    ensures
        final(s)@ == old(s)@ + dec_u8(b),
{
    if b < 10 {
        push_digit(s, b);
    } else if b < 100 {
        push_digit(s, b / 10);
        push_digit(s, b % 10);
    } else {
        push_digit(s, b / 100);
        push_digit(s, (b / 10) % 10);
        push_digit(s, b % 10);
    }
    assert(final(s)@ =~= old(s)@ + dec_u8(b));
}

/// `needle` occurs in `hay` starting at position `i`.
pub open spec fn occurs_at(hay: Seq<char>, needle: Seq<char>, i: int) -> bool {
    &&& 0 <= i
    &&& i + needle.len() <= hay.len()
    &&& hay.subrange(i, i + needle.len()) == needle
}

/// `needle` occurs somewhere in `hay`.
pub open spec fn contains_text(hay: Seq<char>, needle: Seq<char>) -> bool {
    exists|i: int| occurs_at(hay, needle, i)
}

/// Whether `needle` occurs in `hay` at position `i`.
fn matches_at(hay: &str, needle: &str, i: usize, hay_len: usize, needle_len: usize) -> (r: bool)
    requires
        hay_len == hay@.len(),
        needle_len == needle@.len(),
        i + needle_len <= hay_len,
    ensures
        r == occurs_at(hay@, needle@, i as int),
{
    let mut j: usize = 0;
    while j < needle_len
        invariant
            hay_len == hay@.len(),
            needle_len == needle@.len(),
            i + needle_len <= hay_len,
            j <= needle_len,
            forall|k: int| 0 <= k < j ==> hay@[i + k] == needle@[k],
        decreases needle_len - j,
    {
        if hay.get_char(i + j) != needle.get_char(j) {
            assert(hay@.subrange(i as int, i + needle_len)[j as int] != needle@[j as int]);
            return false;
        }
        j += 1;
    }
    assert(hay@.subrange(i as int, i + needle_len) =~= needle@);
    true
}

/// Whether `needle` occurs anywhere in `hay` (as `str::contains` with a string pattern).
pub fn contains(hay: &str, needle: &str) -> (r: bool)
    ensures
        r == contains_text(hay@, needle@),
{
    let hay_len: usize = hay.unicode_len();
    let needle_len: usize = needle.unicode_len();
    if needle_len > hay_len {
        assert(forall|i: int| !occurs_at(hay@, needle@, i));
        return false;
    }
    let last: usize = hay_len - needle_len;
    let mut i: usize = 0;
    loop
        invariant
            hay_len == hay@.len(),
            needle_len == needle@.len(),
            last == hay_len - needle_len,
            i <= last,
            forall|k: int| 0 <= k < i ==> !occurs_at(hay@, needle@, k),
        decreases last - i,
    {
        if matches_at(hay, needle, i, hay_len, needle_len) {
            return true;
        }
        if i == last {
            assert(forall|k: int| !occurs_at(hay@, needle@, k));
            return false;
        }
        i += 1;
    }
}

/// `s` with the leading `prefix` removed, when `s` starts with it.
pub open spec fn strip_prefix_text(s: Seq<char>, prefix: Seq<char>) -> Option<Seq<char>> {
    if occurs_at(s, prefix, 0) {
        Some(s.subrange(prefix.len() as int, s.len() as int))
    } else {
        None
    }
}

/// The rest of `s` after `prefix`, or `None` when `s` does not start with it
/// (as `str::strip_prefix` with a string pattern).
pub fn strip_prefix(s: &str, prefix: &str) -> (r: Option<String>)
    ensures
        r matches Some(rest) ==> strip_prefix_text(s@, prefix@) == Some(rest@),
        r is None ==> strip_prefix_text(s@, prefix@) is None,
{
    let s_len: usize = s.unicode_len();
    let prefix_len: usize = prefix.unicode_len();
    if prefix_len <= s_len && matches_at(s, prefix, 0, s_len, prefix_len) {
        let rest = s.substring_char(prefix_len, s_len);
        Some(String::from_str(rest))
    } else {
        None
    }
}

/// Hex digits are the characters `0`–`9` then `a`–`f`: digit `d` is the
/// character with code 48 + d below ten and 87 + d (that is `'a'` + d − 10)
/// from ten on.
pub proof fn lemma_hex_char_codes(d: int)
    requires
        0 <= d < 16,
    ensures
        d < 10 ==> hex_char(d) as int == 48 + d,
        d >= 10 ==> hex_char(d) as int == 87 + d,
{
}

/// The code of a decimal digit character minus that of `'0'`.
pub open spec fn digit_value(c: char) -> int {
    c as int - 48
}

/// Decimal rendering is exact: one to three digits, no leading zero unless the
/// number is 0, and the digits read back as the number.
pub proof fn lemma_dec_u8_value(b: u8)
    ensures
        1 <= dec_u8(b).len() <= 3,
        dec_u8(b).len() > 1 ==> dec_u8(b)[0] != '0',
        forall|i: int| 0 <= i < dec_u8(b).len() ==> 0 <= #[trigger] digit_value(dec_u8(b)[i]) <= 9,
        dec_u8(b).len() == 1 ==> digit_value(dec_u8(b)[0]) == b,
        dec_u8(b).len() == 2 ==> digit_value(dec_u8(b)[0]) * 10 + digit_value(dec_u8(b)[1]) == b,
        dec_u8(b).len() == 3 ==> digit_value(dec_u8(b)[0]) * 100 + digit_value(dec_u8(b)[1]) * 10
            + digit_value(dec_u8(b)[2]) == b,
{
}

/// Two-digit hex rendering is exact: the high digit then the low digit.
pub proof fn lemma_hex2_value(b: u8)
    ensures
        hex2(b).len() == 2,
        hex2(b)[0] as int == (if b / 16 < 10 { 48 + b / 16 } else { 87 + b / 16 }),
        hex2(b)[1] as int == (if b % 16 < 10 { 48 + b % 16 } else { 87 + b % 16 }),
{
}

} // verus!

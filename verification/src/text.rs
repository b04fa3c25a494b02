//! Small verified text helpers shared by the scanner, the parser and the
//! diagnostic renderer: character classification, case folding, string
//! building and number-to-text rendering.

use vstd::prelude::*;

verus! {

/// Relies on String::push: appends exactly one character to the string.
#[verifier::external_body]
pub(crate) fn push_char(s: &mut String, c: char)
    ensures
        final(s)@ == old(s)@.push(c),
{
    s.push(c);
}

/// Character-wise equality of two string slices.
pub fn str_eq(a: &str, b: &str) -> (r: bool)
    ensures
        r == (a@ == b@),
{
    let sa: String = a.to_owned();
    let sb: String = b.to_owned();
    sa == sb
}

/// ASCII upper-casing of a single character; everything outside `a..=z` is
/// left unchanged.
pub open spec fn spec_upper_char(c: char) -> char {
    if c as u32 >= 97 && c as u32 <= 122 {
        ((c as u32 - 32) as u8) as char
    } else {
        c
    }
}

/// ASCII upper-casing of a character sequence.
pub open spec fn spec_upper(s: Seq<char>) -> Seq<char> {
    s.map_values(|c: char| spec_upper_char(c))
}

/// ASCII upper-casing of one character.
pub fn upper_char(c: char) -> (r: char)
    ensures
        r == spec_upper_char(c),
{
    if c as u32 >= 97 && c as u32 <= 122 {
        ((c as u32 - 32) as u8) as char
    } else {
        c
    }
}

/// ASCII upper-casing of a string slice.
pub fn upper_string(s: &str) -> (r: String)
    ensures
        r@ == spec_upper(s@),
{
    let n = s.unicode_len();
    let mut r = String::new();
    let mut i: usize = 0;
    while i < n
        invariant
            n == s@.len(),
            i <= n,
            r@ == spec_upper(s@.take(i as int)),
        decreases n - i,
    {
        let c = s.get_char(i);
        push_char(&mut r, upper_char(c));
        i = i + 1;
        assert(s@.take(i as int).map_values(|c: char| spec_upper_char(c))
            =~= s@.take(i - 1).map_values(|c: char| spec_upper_char(c)).push(
            spec_upper_char(s@[i - 1])));
    }
    assert(s@.take(n as int) =~= s@);
    r
}

/// The one-byte character a raw source byte stands for.
pub open spec fn byte_char(b: u8) -> char {
    b as char
}

/// The text a byte sequence stands for, one character per byte.
pub open spec fn bytes_text(s: Seq<u8>) -> Seq<char> {
    s.map_values(|b: u8| byte_char(b))
}

/// Builds the text of `src[from..to]`, one character per byte.
pub fn bytes_to_string(src: &Vec<u8>, from: usize, to: usize) -> (r: String)
    requires
        from <= to <= src@.len(),
    ensures
        r@ == bytes_text(src@.subrange(from as int, to as int)),
{
    let mut r = String::new();
    let mut i: usize = from;
    while i < to
        invariant
            from <= i <= to <= src@.len(),
            r@ == bytes_text(src@.subrange(from as int, i as int)),
        decreases to - i,
    {
        push_char(&mut r, src[i] as char);
        i = i + 1;
        assert(src@.subrange(from as int, i as int).map_values(|b: u8| byte_char(b))
            =~= src@.subrange(from as int, i - 1).map_values(|b: u8| byte_char(b)).push(
            byte_char(src@[i - 1])));
    }
    r
}

/// The character for a single decimal or hexadecimal digit value.
pub open spec fn spec_digit_char(d: u8) -> char {
    if d < 10 {
        ((48 + d) as u8) as char
    } else {
        ((87 + d) as u8) as char
    }
}

/// The decimal rendering of a number, most significant digit first.
pub open spec fn spec_dec(n: nat) -> Seq<char>
    decreases n,
{
    if n < 10 {
        seq![spec_digit_char(n as u8)]
    } else {
        spec_dec(n / 10).push(spec_digit_char((n % 10) as u8))
    }
}

/// The lowercase hexadecimal rendering of a number, most significant digit
/// first, without a prefix.
pub open spec fn spec_hex(n: nat) -> Seq<char>
    decreases n,
{
    if n < 16 {
        seq![spec_digit_char(n as u8)]
    } else {
        spec_hex(n / 16).push(spec_digit_char((n % 16) as u8))
    }
}

fn digit_char(d: u8) -> (r: char)
    requires
        d < 16,
    ensures
        r == spec_digit_char(d),
{
    if d < 10 {
        (48 + d) as char
    } else {
        (87 + d) as char
    }
}

/// Renders `n` in decimal.
pub fn dec_string(n: u64) -> (r: String)
    ensures
        r@ == spec_dec(n as nat),
    decreases n,
{
    if n < 10 {
        let mut r = String::new();
        push_char(&mut r, digit_char(n as u8));
        r
    } else {
        let mut r = dec_string(n / 10);
        push_char(&mut r, digit_char((n % 10) as u8));
        r
    }
}

/// Renders `n` in lowercase hexadecimal, without a prefix.
pub fn hex_string(n: u64) -> (r: String)
    ensures
        r@ == spec_hex(n as nat),
    decreases n,
{
    if n < 16 {
        let mut r = String::new();
        push_char(&mut r, digit_char(n as u8));
        r
    } else {
        let mut r = hex_string(n / 16);
        push_char(&mut r, digit_char((n % 16) as u8));
        r
    }
}

/// Appends `n` copies of `c` to `s`.
pub fn push_repeated(s: &mut String, c: char, n: usize)
    ensures
        final(s)@ == old(s)@ + Seq::new(n as nat, |i: int| c),
{
    let mut i: usize = 0;
    while i < n
        invariant
            i <= n,
            s@ == old(s)@ + Seq::new(i as nat, |j: int| c),
        decreases n - i,
    {
        push_char(s, c);
        i = i + 1;
        assert(old(s)@ + Seq::new(i as nat, |j: int| c)
            =~= (old(s)@ + Seq::new((i - 1) as nat, |j: int| c)).push(c));
    }
}

/// Appends `other` to `s`.
pub fn push_str(s: &mut String, other: &str)
    ensures
        final(s)@ == old(s)@ + other@,
{
    s.append(other);
}



/// The parts joined with `sep` between each pair.
pub open spec fn spec_join(parts: Seq<Seq<char>>, sep: Seq<char>) -> Seq<char>
    decreases parts.len(),
{
    if parts.len() == 0 {
        Seq::empty()
    } else if parts.len() == 1 {
        parts[0]
    } else {
        spec_join(parts.drop_last(), sep) + sep + parts.last()
    }
}

} // verus!

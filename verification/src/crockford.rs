//! Crockford's base 32 on blocks of five bytes, through the `base32` crate.
//!
//! Five bytes are read as one 40-bit word, most significant byte first, and
//! eight symbols as the eight 5-bit digits of the same word, most significant
//! digit first.

use vstd::prelude::*;

verus! {

/// The symbol that stands for the digit `v` (0 to 31): the digits, then the
/// upper-case letters without `I`, `L`, `O` and `U`.
pub open spec fn crockford_symbol(v: int) -> char {
    if v < 10 {
        (v + 48) as char
    } else if v < 18 {
        (v + 55) as char
    } else if v < 20 {
        (v + 56) as char
    } else if v < 22 {
        (v + 57) as char
    } else if v < 27 {
        (v + 58) as char
    } else {
        (v + 59) as char
    }
}

/// The 32 symbols in the order of their digits.
pub proof fn lemma_alphabet()
    ensures
        Seq::new(32, |v: int| crockford_symbol(v)) == "0123456789ABCDEFGHJKMNPQRSTVWXYZ"@,
{
    reveal_strlit("0123456789ABCDEFGHJKMNPQRSTVWXYZ");
    assert(Seq::new(32, |v: int| crockford_symbol(v)) =~= "0123456789ABCDEFGHJKMNPQRSTVWXYZ"@);
}

/// An ASCII letter in upper case; any other character unchanged.
pub open spec fn ascii_upper(c: char) -> char {
    if 'a' <= c && c <= 'z' {
        ((c as int) - 32) as char
    } else {
        c
    }
}

/// An ASCII letter in lower case; any other character unchanged.
pub open spec fn ascii_lower(c: char) -> char {
    if 'A' <= c && c <= 'Z' {
        ((c as int) + 32) as char
    } else {
        c
    }
}

/// The digit that the `base32` crate reads a character as, or -1 where it
/// refuses it. Letters count in either case; it reads `I` and `L` as 1 and
/// `O` as 0, and refuses `U`.
pub open spec fn crockford_value(c: char) -> int {
    let u = ascii_upper(c);
    if '0' <= u && u <= '9' {
        (u as int) - 48
    } else if 'A' <= u && u <= 'H' {
        (u as int) - 55
    } else if u == 'I' || u == 'L' {
        1
    } else if u == 'J' || u == 'K' {
        (u as int) - 56
    } else if u == 'M' || u == 'N' {
        (u as int) - 57
    } else if u == 'O' {
        0
    } else if 'P' <= u && u <= 'T' {
        (u as int) - 58
    } else if 'V' <= u && u <= 'Z' {
        (u as int) - 59
    } else {
        -1
    }
}

/// The 40-bit word that five bytes spell, most significant byte first.
pub open spec fn word_of_octets(b0: u8, b1: u8, b2: u8, b3: u8, b4: u8) -> u64 {
    ((b0 as u64) << 32) | ((b1 as u64) << 24) | ((b2 as u64) << 16) | ((b3 as u64) << 8) | (
    b4 as u64)
}

/// The 40-bit word with the given eight 5-bit digits, most significant first.
pub open spec fn word_of_digits(
    d0: u64,
    d1: u64,
    d2: u64,
    d3: u64,
    d4: u64,
    d5: u64,
    d6: u64,
    d7: u64,
) -> u64 {
    ((d0 & 31) << 35) | ((d1 & 31) << 30) | ((d2 & 31) << 25) | ((d3 & 31) << 20) | ((d4 & 31)
        << 15) | ((d5 & 31) << 10) | ((d6 & 31) << 5) | (d7 & 31)
}

/// The 5-bit digit of `word` that ends `shift` bits above the lowest bit.
pub open spec fn digit_at(word: u64, shift: u64) -> u64 {
    (word >> shift) & 31
}

/// The byte of `word` that ends `shift` bits above the lowest bit.
pub open spec fn octet_at(word: u64, shift: u64) -> u8 {
    ((word >> shift) & 0xff) as u8
}

/// The word that five bytes spell.
pub open spec fn word_of_bytes(bytes: Seq<u8>) -> u64 {
    word_of_octets(bytes[0], bytes[1], bytes[2], bytes[3], bytes[4])
}

/// The word that eight characters spell, each read by `crockford_value`.
pub open spec fn word_of_symbols(text: Seq<char>) -> u64 {
    word_of_digits(
        crockford_value(text[0]) as u64,
        crockford_value(text[1]) as u64,
        crockford_value(text[2]) as u64,
        crockford_value(text[3]) as u64,
        crockford_value(text[4]) as u64,
        crockford_value(text[5]) as u64,
        crockford_value(text[6]) as u64,
        crockford_value(text[7]) as u64,
    )
}

/// The eight symbols of a word, most significant digit first, upper case.
pub open spec fn symbols_of_word(word: u64) -> Seq<char> {
    Seq::new(8, |i: int| crockford_symbol(digit_at(word, (35 - 5 * i) as u64) as int))
}

/// The five bytes of a word, most significant first.
pub open spec fn bytes_of_word(word: u64) -> Seq<u8> {
    Seq::new(5, |k: int| octet_at(word, (32 - 8 * k) as u64))
}

/// Whether every character of `text` is one that `crockford_value` reads.
pub open spec fn all_crockford(text: Seq<char>) -> bool {
    forall|i: int| 0 <= i < text.len() ==> crockford_value(#[trigger] text[i]) >= 0
}

/// `base32::encode` with the Crockford alphabet, on five bytes: the eight
/// upper-case symbols of the 40-bit word that the bytes spell.
#[verifier::external_body]
pub(crate) fn base32_encode(data: &Vec<u8>) -> (text: String)
    requires
        data@.len() == 5,
    ensures
        text@ == symbols_of_word(word_of_bytes(data@)),
{
    base32::encode(base32::Alphabet::Crockford, data.as_slice())
}

/// `base32::decode` with the Crockford alphabet, on eight characters: the five
/// bytes of the word that the characters spell, or `None` where one of them is
/// no Crockford symbol.
#[verifier::external_body]
pub(crate) fn base32_decode(text: &str) -> (bytes: Option<Vec<u8>>)
    requires
        text@.len() == 8,
    ensures
        bytes is Some <==> all_crockford(text@),
        bytes is Some ==> bytes->0@ == bytes_of_word(word_of_symbols(text@)),
{
    base32::decode(base32::Alphabet::Crockford, text)
}

} // verus!

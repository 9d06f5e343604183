//! Thirty-bit identifiers and their six-character spelling.
//!
//! An identifier is written by taking its four little-endian bytes, moving the
//! six bits of the top byte to that byte's upper end, and spelling the thirty
//! leading bits in Crockford's base 32, lower case.

use crate::crockford::{
    all_crockford, ascii_lower, base32_decode, base32_encode, crockford_symbol, crockford_value,
    digit_at, octet_at, symbols_of_word, word_of_bytes, word_of_digits, word_of_octets,
    word_of_symbols,
};
use crate::text::{chars_of, push_char};
use vstd::prelude::*;
use vstd::string::StringExecFns;

verus! {

/// The largest identifier.
pub const ID30_MAX: u32 = 0x3FFF_FFFF;

/// The 40-bit word whose thirty leading bits spell the identifier `n`.
pub open spec fn id_word(n: u32) -> u64 {
    word_of_octets(
        (n & 0xff) as u8,
        ((n >> 8) & 0xff) as u8,
        ((n >> 16) & 0xff) as u8,
        ((((n >> 24) & 0xff) << 2) & 0xff) as u8,
        0,
    )
}

/// The identifier that the thirty leading bits of a 40-bit word spell.
pub open spec fn id_of_word(word: u64) -> u32 {
    (octet_at(word, 32) as u32) | ((octet_at(word, 24) as u32) << 8) | ((octet_at(word, 16) as u32)
        << 16) | (((octet_at(word, 8) >> 2) as u32) << 24)
}

/// The six characters that spell the identifier `n`.
pub open spec fn spelling(n: u32) -> Seq<char> {
    Seq::new(6, |i: int| ascii_lower(crockford_symbol(digit_at(id_word(n), (35 - 5 * i) as u64) as int)))
}

/// Whether `text` is read as an identifier: six characters, each a character
/// of spellings in either case. No other character stands for a digit.
pub open spec fn decodable(text: Seq<char>) -> bool {
    text.len() == 6 && forall|i: int|
        0 <= i < 6 ==> canonical_char(ascii_lower(#[trigger] text[i]))
}

/// The identifier that a decodable text is read as.
pub open spec fn parsed(text: Seq<char>) -> u32 {
    id_of_word(word_of_symbols(text + seq!['0', '0']))
}

/// Whether `c` is a character of spellings: a digit, or a lower-case letter
/// other than `i`, `l`, `o` and `u`.
pub open spec fn canonical_char(c: char) -> bool {
    ('0' <= c && c <= '9') || ('a' <= c && c <= 'z' && c != 'i' && c != 'l' && c != 'o' && c
        != 'u')
}

/// Whether `text` is a canonical spelling: six characters of spellings.
pub open spec fn canonical(text: Seq<char>) -> bool {
    text.len() == 6 && forall|i: int| 0 <= i < 6 ==> canonical_char(#[trigger] text[i])
}

/// 30 bit integral identifier
#[derive(PartialEq, Eq, Clone, Copy, Debug, Structural)]
pub struct Id30(u32);

impl View for Id30 {
    type V = u32;

    closed spec fn view(&self) -> u32 {
        self.0
    }
}

/// `byteorder::LittleEndian::write_u32`: the first four bytes of `buf` become
/// the bytes of `n`, least significant first; the others stay.
#[verifier::external_body]
fn write_u32_le(buf: &mut Vec<u8>, n: u32)
    requires
        old(buf)@.len() >= 4,
    ensures
        final(buf)@.len() == old(buf)@.len(),
        final(buf)@[0] == (n & 0xff) as u8,
        final(buf)@[1] == ((n >> 8) & 0xff) as u8,
        final(buf)@[2] == ((n >> 16) & 0xff) as u8,
        final(buf)@[3] == ((n >> 24) & 0xff) as u8,
        forall|i: int| 4 <= i < old(buf)@.len() ==> final(buf)@[i] == old(buf)@[i],
{
    <byteorder::LittleEndian as byteorder::ByteOrder>::write_u32(buf.as_mut_slice(), n);
}

/// `byteorder::LittleEndian::read_u32`: the number whose bytes, least
/// significant first, are the first four bytes of `buf`.
#[verifier::external_body]
fn read_u32_le(buf: &Vec<u8>) -> (n: u32)
    requires
        buf@.len() >= 4,
    ensures
        n == (buf@[0] as u32) | ((buf@[1] as u32) << 8) | ((buf@[2] as u32) << 16) | ((buf@[3] as u32)
            << 24),
{
    <byteorder::LittleEndian as byteorder::ByteOrder>::read_u32(buf.as_slice())
}

/// The random number generator that identifiers are drawn from.
#[verifier::external_type_specification]
#[verifier::external_body]
pub struct ExSmallRng(rand::rngs::SmallRng);

/// `rand::Rng::gen_range` on the range from 0 up to, and without, `bound`: some
/// number of that range.
#[verifier::external_body]
fn sample_below(rng: &mut rand::rngs::SmallRng, bound: u32) -> (n: u32)
    requires
        bound > 0,
    ensures
        n < bound,
{
    rand::Rng::gen_range(rng, 0..bound)
}

impl Id30 {
    #[verifier::type_invariant]
    spec fn in_range(self) -> bool {
        self.0 <= ID30_MAX
    }

    /// The identifier's number, at most `ID30_MAX`.
    pub fn value(&self) -> (n: u32)
        ensures
            n == self@,
            n <= ID30_MAX,
    {
        proof {
            use_type_invariant(self);
        }
        self.0
    }

    /// The identifier with the thirty low bits of `num`.
    pub fn new(num: u32) -> (id: Id30)
        ensures
            id@ == num & ID30_MAX,
            num <= ID30_MAX ==> id@ == num,
    {
        assert(num & 0x3FFF_FFFF <= 0x3FFF_FFFF) by (bit_vector);
        assert(num <= 0x3FFF_FFFF ==> num & 0x3FFF_FFFF == num) by (bit_vector);
        Id30(num & 0x3FFF_FFFF)
    }

    /// The identifier as the whole number that a store keeps.
    pub fn to_stored(&self) -> (n: i32)
        ensures
            n == self@,
    {
        let n = self.value();
        n as i32
    }

    /// The identifier that a store keeps as `n`. A number that does not fit
    /// in thirty bits is no identifier.
    pub fn from_stored(n: i32) -> (r: Result<Id30, ()>)
        ensures
            r is Ok <==> 0 <= n <= ID30_MAX,
            r is Ok ==> r->Ok_0@ == n,
    {
        if 0 <= n && n <= 0x3FFF_FFFF {
            Ok(Id30(n as u32))
        } else {
            Err(())
        }
    }

    /// A random identifier.
    pub fn new_random(rng: &mut rand::rngs::SmallRng) -> (id: Id30)
        ensures
            id@ <= ID30_MAX,
    {
        Id30::new(sample_below(rng, 0x4000_0000))
    }

    /// The six-character spelling of the identifier.
    pub fn to_string(&self) -> (s: String)
        ensures
            s@ == spelling(self@),
    {
        let n = self.value();
        let mut buf: Vec<u8> = Vec::new();
        buf.push(0);
        buf.push(0);
        buf.push(0);
        buf.push(0);
        buf.push(0);
        write_u32_le(&mut buf, n);
        let top: u8 = buf[3] << 2;
        buf.set(3, top);
        let ghost top_byte = ((n >> 24) & 0xff) as u8;
        assert(top == ((((n >> 24) & 0xff) << 2) & 0xff) as u8) by (bit_vector)
            requires
                top == top_byte << 2,
                top_byte == ((n >> 24) & 0xff) as u8,
        ;
        assert(word_of_bytes(buf@) == id_word(n));
        let full = base32_encode(&buf);
        let chars = chars_of(full.as_str());
        let mut s = String::new();
        let mut i: usize = 0;
        while i < 6
            invariant
                i <= 6,
                chars@ == symbols_of_word(id_word(n)),
                s@ == spelling(n).take(i as int),
            decreases 6 - i,
        {
            let c = chars[i];
            let lower = if 'A' <= c && c <= 'Z' {
                ((c as u8) + 32) as char
            } else {
                c
            };
            push_char(&mut s, lower);
            i += 1;
        }
        s
    }

    /// Reads a six-character spelling, in either case. A text of another
    /// length, or with a character that no spelling holds, is refused.
    pub fn from_str(text: &str) -> (r: Result<Id30, ()>)
        ensures
            r is Ok <==> decodable(text@),
            r is Ok ==> r->Ok_0@ == parsed(text@),
    {
        let chars = chars_of(text);
        if chars.len() != 6 {
            return Err(());
        }
        let mut i: usize = 0;
        while i < 6
            invariant
                i <= 6,
                chars@ == text@,
                chars@.len() == 6,
                forall|k: int| 0 <= k < i ==> canonical_char(ascii_lower(#[trigger] text@[k])),
            decreases 6 - i,
        {
            if !is_symbol(chars[i]) {
                return Err(());
            }
            i += 1;
        }
        let mut padded = String::from_str(text);
        padded.append("00");
        proof {
            reveal_strlit("00");
            assert("00"@ =~= seq!['0', '0']);
            assert(padded@ =~= text@ + seq!['0', '0']);
            assert(crockford_value('0') == 0);
            assert forall|k: int| 0 <= k < padded@.len() implies crockford_value(
                #[trigger] padded@[k],
            ) >= 0 by {
                if k < 6 {
                    assert(padded@[k] == text@[k]);
                    lemma_symbol_is_read(text@[k]);
                }
            }
        }
        match base32_decode(padded.as_str()) {
            None => Err(()),
            Some(mut buf) => {
                let ghost word = word_of_symbols(padded@);
                let low: u8 = buf[3] >> 2;
                buf.set(3, low);
                let n = read_u32_le(&buf);
                assert(n == id_of_word(word) && n <= 0x3FFF_FFFF) by {
                    lemma_id_of_word_in_range(word);
                }
                Ok(Id30(n))
            },
        }
    }
}

/// Whether `c` is a character of spellings, in either case.
fn is_symbol(c: char) -> (r: bool)
    ensures
        r == canonical_char(ascii_lower(c)),
{
    let lower = if 'A' <= c && c <= 'Z' {
        ((c as u8) + 32) as char
    } else {
        c
    };
    ('0' <= lower && lower <= '9') || ('a' <= lower && lower <= 'z' && lower != 'i' && lower
        != 'l' && lower != 'o' && lower != 'u')
}

impl From<u32> for Id30 {
    /// The identifier with the thirty low bits of `num`.
    fn from(num: u32) -> (id: Id30)
        ensures
            id@ == num & ID30_MAX,
    {
        Id30::new(num)
    }
}

impl vstd::std_specs::convert::FromSpecImpl<u32> for Id30 {
    open spec fn obeys_from_spec() -> bool {
        true
    }

    closed spec fn from_spec(v: u32) -> Id30 {
        Id30(v & 0x3FFF_FFFF)
    }
}

impl From<Id30> for u32 {
    /// The identifier's number, at most `ID30_MAX`.
    fn from(id: Id30) -> (n: u32)
        ensures
            n == id@,
            n <= ID30_MAX,
    {
        id.value()
    }
}

impl vstd::std_specs::convert::FromSpecImpl<Id30> for u32 {
    open spec fn obeys_from_spec() -> bool {
        true
    }

    open spec fn from_spec(v: Id30) -> u32 {
        v@
    }
}

impl std::str::FromStr for Id30 {
    type Err = ();

    /// Reads a six-character spelling, in either case.
    fn from_str(text: &str) -> (r: Result<Id30, ()>)
        ensures
            r is Ok <==> decodable(text@),
            r is Ok ==> r->Ok_0@ == parsed(text@),
    {
        Id30::from_str(text)
    }
}

/// How often a fresh identifier is drawn before the search for a free one is
/// given up.
pub const DRAWS: u32 = 10;

/// After a drawn identifier turned out to be taken: the number of draws so
/// far where another is made, or `None` where the search is given up.
/// `taken` counts the draws before this one.
pub fn after_taken(taken: u32) -> (r: Option<u32>)
    ensures
        r == (if taken + 1 >= DRAWS {
            None
        } else {
            Some((taken + 1) as u32)
        }),
{
    if taken >= DRAWS - 1 {
        None
    } else {
        Some(taken + 1)
    }
}

/// A word's identifier fits in thirty bits.
proof fn lemma_id_of_word_in_range(word: u64)
    by (bit_vector)
    ensures
        id_of_word(word) <= 0x3FFF_FFFF,
{
}

/// Reading the six leading digits of an identifier's word gives the identifier.
proof fn lemma_word_of_id(n: u32)
    by (bit_vector)
    requires
        n <= 0x3FFF_FFFF,
    ensures
        id_of_word(
            word_of_digits(
                digit_at(id_word(n), 35),
                digit_at(id_word(n), 30),
                digit_at(id_word(n), 25),
                digit_at(id_word(n), 20),
                digit_at(id_word(n), 15),
                digit_at(id_word(n), 10),
                0,
                0,
            ),
        ) == n,
{
}

/// The word of the identifier that six digits spell has those six digits.
proof fn lemma_id_of_digits(d0: u64, d1: u64, d2: u64, d3: u64, d4: u64, d5: u64)
    by (bit_vector)
    requires
        d0 < 32,
        d1 < 32,
        d2 < 32,
        d3 < 32,
        d4 < 32,
        d5 < 32,
    ensures
        ({
            let w = id_word(id_of_word(word_of_digits(d0, d1, d2, d3, d4, d5, 0, 0)));
            &&& digit_at(w, 35) == d0
            &&& digit_at(w, 30) == d1
            &&& digit_at(w, 25) == d2
            &&& digit_at(w, 20) == d3
            &&& digit_at(w, 15) == d4
            &&& digit_at(w, 10) == d5
        }),
{
}

/// A digit is below 32.
proof fn lemma_digit_below_32(word: u64, shift: u64)
    by (bit_vector)
    ensures
        digit_at(word, shift) < 32,
{
}

/// Each of the 32 symbols, in lower case, is read as its own digit.
pub proof fn lemma_value_of_symbol(v: int)
    requires
        0 <= v < 32,
    ensures
        crockford_value(ascii_lower(crockford_symbol(v))) == v,
        crockford_value(crockford_symbol(v)) == v,
{
}

/// A character of spellings is the lower-case symbol of the digit it is read
/// as.
pub proof fn lemma_symbol_of_value(c: char)
    requires
        canonical_char(c),
    ensures
        0 <= crockford_value(c) < 32,
        ascii_lower(crockford_symbol(crockford_value(c))) == c,
{
}

/// Every spelling is canonical.
pub proof fn lemma_spelling_is_canonical(n: u32)
    ensures
        canonical(spelling(n)),
{
    let text = spelling(n);
    assert forall|i: int| 0 <= i < 6 implies canonical_char(#[trigger] text[i]) by {
        let d = digit_at(id_word(n), (35 - 5 * i) as u64);
        lemma_digit_below_32(id_word(n), (35 - 5 * i) as u64);
        assert(text[i] == ascii_lower(crockford_symbol(d as int)));
    }
}

/// A character of spellings, in either case, is read as the digit of its
/// lower case.
pub proof fn lemma_symbol_is_read(c: char)
    requires
        canonical_char(ascii_lower(c)),
    ensures
        0 <= crockford_value(c) < 32,
        crockford_value(c) == crockford_value(ascii_lower(c)),
        ascii_lower(crockford_symbol(crockford_value(c))) == ascii_lower(c),
{
}

/// Every canonical text is decodable.
pub proof fn lemma_canonical_is_decodable(text: Seq<char>)
    requires
        canonical(text),
    ensures
        decodable(text),
{
    assert forall|i: int| 0 <= i < 6 implies canonical_char(ascii_lower(#[trigger] text[i])) by {
        assert(canonical_char(text[i]));
    }
}

/// The base-32 reader takes every decodable text: it refuses none of its
/// characters.
pub proof fn lemma_decodable_is_read(text: Seq<char>)
    requires
        decodable(text),
    ensures
        all_crockford(text),
{
    assert forall|i: int| 0 <= i < text.len() implies crockford_value(#[trigger] text[i]) >= 0 by {
        lemma_symbol_is_read(text[i]);
    }
}

/// The lower case of a text, character by character.
pub open spec fn lower_case(text: Seq<char>) -> Seq<char> {
    Seq::new(text.len(), |i: int| ascii_lower(text[i]))
}

/// What a decodable text is read as is spelled as the text in lower case.
pub proof fn lemma_spelling_is_lower_case(text: Seq<char>)
    requires
        decodable(text),
    ensures
        canonical(lower_case(text)),
        parsed(lower_case(text)) == parsed(text),
        spelling(parsed(text)) == lower_case(text),
{
    let low = lower_case(text);
    assert forall|i: int| 0 <= i < 6 implies canonical_char(#[trigger] low[i]) by {
        assert(low[i] == ascii_lower(text[i]));
    }
    lemma_symbol_is_read(text[0]);
    lemma_symbol_is_read(text[1]);
    lemma_symbol_is_read(text[2]);
    lemma_symbol_is_read(text[3]);
    lemma_symbol_is_read(text[4]);
    lemma_symbol_is_read(text[5]);
    let padded = text + seq!['0', '0'];
    let low_padded = low + seq!['0', '0'];
    assert(padded[0] == text[0] && padded[1] == text[1] && padded[2] == text[2] && padded[3]
        == text[3] && padded[4] == text[4] && padded[5] == text[5]);
    assert(low_padded[0] == low[0] && low_padded[1] == low[1] && low_padded[2] == low[2]
        && low_padded[3] == low[3] && low_padded[4] == low[4] && low_padded[5] == low[5]);
    assert(padded[6] == '0' && padded[7] == '0');
    assert(low_padded[6] == '0' && low_padded[7] == '0');
    assert(word_of_symbols(padded) == word_of_symbols(low_padded));
    lemma_encode_decode(low);
}

/// Decoding inverts encoding: the spelling of an identifier is read as that
/// identifier.
pub proof fn lemma_decode_encode(n: u32)
    requires
        n <= ID30_MAX,
    ensures
        decodable(spelling(n)),
        parsed(spelling(n)) == n,
{
    let text = spelling(n);
    let w = id_word(n);
    lemma_spelling_is_canonical(n);
    lemma_canonical_is_decodable(text);
    lemma_digit_below_32(w, 35);
    lemma_digit_below_32(w, 30);
    lemma_digit_below_32(w, 25);
    lemma_digit_below_32(w, 20);
    lemma_digit_below_32(w, 15);
    lemma_digit_below_32(w, 10);
    lemma_value_of_symbol(digit_at(w, 35) as int);
    lemma_value_of_symbol(digit_at(w, 30) as int);
    lemma_value_of_symbol(digit_at(w, 25) as int);
    lemma_value_of_symbol(digit_at(w, 20) as int);
    lemma_value_of_symbol(digit_at(w, 15) as int);
    lemma_value_of_symbol(digit_at(w, 10) as int);
    let padded = text + seq!['0', '0'];
    assert(padded[0] == text[0] && padded[1] == text[1] && padded[2] == text[2] && padded[3]
        == text[3] && padded[4] == text[4] && padded[5] == text[5]);
    assert(padded[6] == '0' && padded[7] == '0');
    assert(crockford_value('0') == 0);
    lemma_word_of_id(n);
}

/// Encoding inverts decoding on canonical texts: the identifier that a
/// canonical text is read as is spelled as that text.
pub proof fn lemma_encode_decode(text: Seq<char>)
    requires
        canonical(text),
    ensures
        decodable(text),
        spelling(parsed(text)) == text,
{
    lemma_canonical_is_decodable(text);
    let v0 = crockford_value(text[0]);
    let v1 = crockford_value(text[1]);
    let v2 = crockford_value(text[2]);
    let v3 = crockford_value(text[3]);
    let v4 = crockford_value(text[4]);
    let v5 = crockford_value(text[5]);
    lemma_symbol_of_value(text[0]);
    lemma_symbol_of_value(text[1]);
    lemma_symbol_of_value(text[2]);
    lemma_symbol_of_value(text[3]);
    lemma_symbol_of_value(text[4]);
    lemma_symbol_of_value(text[5]);
    let padded = text + seq!['0', '0'];
    assert(padded[0] == text[0] && padded[1] == text[1] && padded[2] == text[2] && padded[3]
        == text[3] && padded[4] == text[4] && padded[5] == text[5]);
    assert(padded[6] == '0' && padded[7] == '0');
    assert(crockford_value('0') == 0);
    lemma_id_of_digits(v0 as u64, v1 as u64, v2 as u64, v3 as u64, v4 as u64, v5 as u64);
    let n = parsed(text);
    assert(n == id_of_word(
        word_of_digits(v0 as u64, v1 as u64, v2 as u64, v3 as u64, v4 as u64, v5 as u64, 0, 0),
    ));
    assert(spelling(n) =~= text);
}

/// A decodable text is the spelling of what it is read as exactly when it is
/// canonical: any other decodable text holds an upper-case letter.
pub proof fn lemma_canonical_iff_fixed(text: Seq<char>)
    requires
        decodable(text),
    ensures
        canonical(text) <==> spelling(parsed(text)) == text,
{
    if canonical(text) {
        lemma_encode_decode(text);
    }
    if spelling(parsed(text)) == text {
        lemma_spelling_is_canonical(parsed(text));
    }
}

} // verus!

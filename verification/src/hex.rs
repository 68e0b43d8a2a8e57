//! Hexadecimal digest identifiers.
//!
//! A digest identifier (block hash or transaction id) is a 256-bit value
//! carried at the REST boundary as a 64-character hexadecimal string.
//! This module defines what a valid digest string is, decodes it to its
//! 32 bytes, and encodes 32 bytes back to lower-case hexadecimal.

use vstd::prelude::*;

verus! {

/// A character is a decimal digit (`0`-`9`).
pub open spec fn is_dec_digit(c: char) -> bool {
    48 <= c as u32 && c as u32 <= 57
}

/// A character is a hexadecimal digit, either case accepted.
pub open spec fn is_hex_digit(c: char) -> bool {
    is_dec_digit(c) || (97 <= c as u32 && c as u32 <= 102) || (65 <= c as u32 && c as u32 <= 70)
}

/// A character is a lower-case hexadecimal digit (`0`-`9`, `a`-`f`).
pub open spec fn is_lower_hex_digit(c: char) -> bool {
    is_dec_digit(c) || (97 <= c as u32 && c as u32 <= 102)
}

/// The numeric value of a hexadecimal digit.
pub open spec fn hex_val(c: char) -> u8
    recommends
        is_hex_digit(c),
{
    if is_dec_digit(c) {
        (c as u32 - 48) as u8
    } else if 97 <= c as u32 && c as u32 <= 102 {
        (c as u32 - 97 + 10) as u8
    } else {
        (c as u32 - 65 + 10) as u8
    }
}

/// The lower-case hexadecimal digit for a value below 16.
pub open spec fn hex_char(n: u8) -> char
    recommends
        n < 16,
{
    if n == 0 { '0' }
    else if n == 1 { '1' }
    else if n == 2 { '2' }
    else if n == 3 { '3' }
    else if n == 4 { '4' }
    else if n == 5 { '5' }
    else if n == 6 { '6' }
    else if n == 7 { '7' }
    else if n == 8 { '8' }
    else if n == 9 { '9' }
    else if n == 10 { 'a' }
    else if n == 11 { 'b' }
    else if n == 12 { 'c' }
    else if n == 13 { 'd' }
    else if n == 14 { 'e' }
    else { 'f' }
}

/// A valid digest string: exactly 64 hexadecimal characters.
pub open spec fn is_digest_str(s: Seq<char>) -> bool {
    s.len() == 64 && forall|i: int| 0 <= i < 64 ==> is_hex_digit(#[trigger] s[i])
}

/// The 32 bytes a valid digest string decodes to.
pub open spec fn digest_bytes(s: Seq<char>) -> Seq<u8>
    recommends
        is_digest_str(s),
{
    Seq::new(32, |i: int| (hex_val(s[2 * i]) * 16 + hex_val(s[2 * i + 1])) as u8)
}

/// The lower-case hexadecimal string for a byte sequence.
pub open spec fn hex_str_of(b: Seq<u8>) -> Seq<char> {
    Seq::new(2 * b.len(), |i: int|
        if i % 2 == 0 {
            hex_char((b[i / 2] / 16) as u8)
        } else {
            hex_char((b[i / 2] % 16) as u8)
        })
}

/// A 256-bit digest identifier, decoded: exactly 32 bytes.
#[derive(Debug, Clone, PartialEq, Eq)]
pub struct Digest {
    pub bytes: Vec<u8>,
}

impl View for Digest {
    type V = Seq<u8>;

    open spec fn view(&self) -> Seq<u8> {
        self.bytes@
    }
}

impl Digest {
    /// The invariant: a digest holds exactly 32 bytes.
    pub open spec fn wf(&self) -> bool {
        self.bytes@.len() == 32
    }
}

/// The value of a hexadecimal digit character, `None` for any other character.
pub fn hex_digit_value(c: char) -> (r: Option<u8>)
    ensures
        r is Some <==> is_hex_digit(c),
        r matches Some(v) ==> v == hex_val(c) && v < 16,
{
    let u = c as u32;
    if 48 <= u && u <= 57 {
        Some((u - 48) as u8)
    } else if 97 <= u && u <= 102 {
        Some((u - 97 + 10) as u8)
    } else if 65 <= u && u <= 70 {
        Some((u - 65 + 10) as u8)
    } else {
        None
    }
}

/// Decode a digest string. Returns the 32 decoded bytes exactly when the
/// input is 64 hexadecimal characters, and `None` for every other input.
pub fn parse_digest(s: &str) -> (r: Option<Digest>)
    ensures
        r is Some <==> is_digest_str(s@),
        r matches Some(d) ==> d.wf() && d@ == digest_bytes(s@),
{
    let n = s.unicode_len();
    if n != 64 {
        return None;
    }
    let mut bytes: Vec<u8> = Vec::new();
    let mut j: usize = 0;
    while j < 32
        invariant
            s@.len() == 64,
            j <= 32,
            bytes@.len() == j,
            forall|k: int| 0 <= k < j ==> is_hex_digit(#[trigger] s@[2 * k]) && is_hex_digit(
                s@[2 * k + 1],
            ),
            forall|k: int| 0 <= k < j ==> #[trigger] bytes@[k] == (hex_val(s@[2 * k]) * 16
                + hex_val(s@[2 * k + 1])) as u8,
        decreases 32 - j,
    {
        let c0 = s.get_char(2 * j);
        let c1 = s.get_char(2 * j + 1);
        let v0 = match hex_digit_value(c0) {
            Some(v) => v,
            None => {
                return None;
            },
        };
        let v1 = match hex_digit_value(c1) {
            Some(v) => v,
            None => {
                return None;
            },
        };
        bytes.push(v0 * 16 + v1);
        j += 1;
    }
    proof {
        assert forall|i: int| 0 <= i < 64 implies is_hex_digit(#[trigger] s@[i]) by {
            let k = i / 2;
            assert(is_hex_digit(s@[2 * k]) && is_hex_digit(s@[2 * k + 1]));
            if i % 2 == 0 {
                assert(i == 2 * k);
            } else {
                assert(i == 2 * k + 1);
            }
        }
        assert(bytes@ =~= digest_bytes(s@));
    }
    Some(Digest { bytes })
}

/// The single-character string for a hexadecimal digit value.
fn nibble_str(n: u8) -> (r: &'static str)
    requires
        n < 16,
    ensures
        r@ == seq![hex_char(n)],
{
    proof {
        reveal_strlit("0");
        reveal_strlit("1");
        reveal_strlit("2");
        reveal_strlit("3");
        reveal_strlit("4");
        reveal_strlit("5");
        reveal_strlit("6");
        reveal_strlit("7");
        reveal_strlit("8");
        reveal_strlit("9");
        reveal_strlit("a");
        reveal_strlit("b");
        reveal_strlit("c");
        reveal_strlit("d");
        reveal_strlit("e");
        reveal_strlit("f");
    }
    let r: &'static str = if n == 0 { "0" }
    else if n == 1 { "1" }
    else if n == 2 { "2" }
    else if n == 3 { "3" }
    else if n == 4 { "4" }
    else if n == 5 { "5" }
    else if n == 6 { "6" }
    else if n == 7 { "7" }
    else if n == 8 { "8" }
    else if n == 9 { "9" }
    else if n == 10 { "a" }
    else if n == 11 { "b" }
    else if n == 12 { "c" }
    else if n == 13 { "d" }
    else if n == 14 { "e" }
    else { "f" };
    proof {
        assert(r@ =~= seq![hex_char(n)]);
    }
    r
}

/// Encode a digest as its 64-character lower-case hexadecimal string.
pub fn encode_digest(d: &Digest) -> (r: String)
    requires
        d.wf(),
    ensures
        r@ == hex_str_of(d@),
        r@.len() == 64,
{
    let mut r = String::new();
    let mut j: usize = 0;
    while j < 32
        invariant
            d.wf(),
            j <= 32,
            r@ == hex_str_of(d@.take(j as int)),
        decreases 32 - j,
    {
        let b = d.bytes[j];
        r.append(nibble_str(b / 16));
        r.append(nibble_str(b % 16));
        proof {
            assert(r@ =~= hex_str_of(d@.take(j + 1)));
        }
        j += 1;
    }
    proof {
        assert(d@.take(32) =~= d@);
    }
    r
}

/// A lower-case hexadecimal digit survives a value/digit round trip.
proof fn lemma_hex_char_of_val(c: char)
    requires
        is_lower_hex_digit(c),
    ensures
        hex_char(hex_val(c)) == c,
{
}

/// Decoding a lower-case digest string and re-encoding the bytes gives
/// back exactly the same string.
pub proof fn lemma_digest_round_trip(s: Seq<char>)
    requires
        s.len() == 64,
        forall|i: int| 0 <= i < 64 ==> is_lower_hex_digit(#[trigger] s[i]),
    ensures
        is_digest_str(s),
        hex_str_of(digest_bytes(s)) == s,
{
    assert forall|i: int| 0 <= i < 64 implies is_hex_digit(#[trigger] s[i]) by {}
    let b = digest_bytes(s);
    assert forall|i: int| 0 <= i < 64 implies hex_str_of(b)[i] == s[i] by {
        let k = i / 2;
        let hi = hex_val(s[2 * k]);
        let lo = hex_val(s[2 * k + 1]);
        assert(hi < 16 && lo < 16);
        assert(b[k] == hi * 16 + lo);
        assert((hi * 16 + lo) / 16 == hi as int && (hi * 16 + lo) % 16 == lo as int)
            by (nonlinear_arith)
            requires hi < 16 && lo < 16,
        ;
        if i % 2 == 0 {
            assert(i == 2 * k);
            lemma_hex_char_of_val(s[2 * k]);
        } else {
            assert(i == 2 * k + 1);
            lemma_hex_char_of_val(s[2 * k + 1]);
        }
    }
    assert(hex_str_of(b) =~= s);
}

/// Encoding 32 bytes and decoding the string gives back the same bytes,
/// and the encoding is a valid lower-case digest string.
pub proof fn lemma_bytes_round_trip(b: Seq<u8>)
    requires
        b.len() == 32,
    ensures
        is_digest_str(hex_str_of(b)),
        forall|i: int| 0 <= i < 64 ==> is_lower_hex_digit(#[trigger] hex_str_of(b)[i]),
        digest_bytes(hex_str_of(b)) == b,
{
    let s = hex_str_of(b);
    assert forall|i: int| 0 <= i < 64 implies is_lower_hex_digit(#[trigger] s[i])
        && is_hex_digit(s[i]) by {
        let k = i / 2;
        assert(0 <= b[k] < 256);
    }
    assert forall|k: int| 0 <= k < 32 implies digest_bytes(s)[k] == b[k] by {
        let v = b[k] as int;
        assert(s[2 * k] == hex_char((v / 16) as u8));
        assert(s[2 * k + 1] == hex_char((v % 16) as u8));
        assert(0 <= v < 256);
        assert(hex_val(hex_char((v / 16) as u8)) == v / 16);
        assert(hex_val(hex_char((v % 16) as u8)) == v % 16);
        assert((v / 16) * 16 + v % 16 == v);
    }
    assert(digest_bytes(s) =~= b);
}

} // verus!

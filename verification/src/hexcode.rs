//! Lowercase hex encoding and decoding of byte strings, as exchanged during
//! the digest handshake.

use vstd::prelude::*;
use vstd::string::StringSliceAdditionalSpecFns;

verus! {

/// The hex digit with value `v`, as a lowercase character.
pub open spec fn hex_digit(v: int) -> char
    recommends
        0 <= v < 16,
{
    if v == 0 {
        '0'
    } else if v == 1 {
        '1'
    } else if v == 2 {
        '2'
    } else if v == 3 {
        '3'
    } else if v == 4 {
        '4'
    } else if v == 5 {
        '5'
    } else if v == 6 {
        '6'
    } else if v == 7 {
        '7'
    } else if v == 8 {
        '8'
    } else if v == 9 {
        '9'
    } else if v == 10 {
        'a'
    } else if v == 11 {
        'b'
    } else if v == 12 {
        'c'
    } else if v == 13 {
        'd'
    } else if v == 14 {
        'e'
    } else {
        'f'
    }
}

/// The lowercase hex encoding of `b`: two digits per byte, most significant
/// nibble first.
pub open spec fn hex_chars_of(b: Seq<u8>) -> Seq<char> {
    Seq::new(
        2 * b.len(),
        |i: int|
            if i % 2 == 0 {
                hex_digit((b[i / 2] as int) / 16)
            } else {
                hex_digit((b[i / 2] as int) % 16)
            },
    )
}

/// The same encoding as ASCII bytes.
pub open spec fn hex_bytes_of(b: Seq<u8>) -> Seq<u8> {
    Seq::new(2 * b.len(), |i: int| hex_chars_of(b)[i] as u8)
}

/// `c` is the ASCII code of a hex digit, in either case.
pub open spec fn is_hex_byte(c: u8) -> bool {
    (48 <= c <= 57) || (97 <= c <= 102) || (65 <= c <= 70)
}

/// `c` is the ASCII code of a digit or a lowercase hex letter.
pub open spec fn is_lower_hex_byte(c: u8) -> bool {
    (48 <= c <= 57) || (97 <= c <= 102)
}

/// The numeric value of the hex digit with ASCII code `c`.
pub open spec fn hex_val(c: u8) -> int
    recommends
        is_hex_byte(c),
{
    if 48 <= c <= 57 {
        c - 48
    } else if 97 <= c <= 102 {
        c - 97 + 10
    } else {
        c - 65 + 10
    }
}

/// `s` spells a byte string in hex: even length, hex digits throughout.
pub open spec fn valid_hex_bytes(s: Seq<u8>) -> bool {
    s.len() % 2 == 0 && forall|i: int| 0 <= i < s.len() ==> is_hex_byte(#[trigger] s[i])
}

/// The bytes that a valid hex sequence spells.
pub open spec fn hex_decode_bytes(s: Seq<u8>) -> Seq<u8> {
    Seq::new(s.len() / 2, |i: int| (hex_val(s[2 * i]) * 16 + hex_val(s[2 * i + 1])) as u8)
}

/// Hex encodings consist of ASCII characters only.
pub proof fn lemma_hex_chars_ascii(b: Seq<u8>)
    ensures
        vstd::utf8::is_ascii_chars(hex_chars_of(b)),
{
    assert forall|i: int| 0 <= i < hex_chars_of(b).len() implies '\0' <= #[trigger] hex_chars_of(
        b,
    )[i] <= '\u{7f}' by {
        if i % 2 == 0 {
            assert(hex_chars_of(b)[i] == hex_digit((b[i / 2] as int) / 16));
        } else {
            assert(hex_chars_of(b)[i] == hex_digit((b[i / 2] as int) % 16));
        }
    }
}

/// The UTF-8 bytes of a hex encoding are exactly its digits' ASCII codes.
pub proof fn lemma_hex_utf8(b: Seq<u8>)
    ensures
        vstd::utf8::encode_utf8(hex_chars_of(b)) =~= hex_bytes_of(b),
{
    lemma_hex_chars_ascii(b);
    vstd::utf8::is_ascii_chars_encode_utf8(hex_chars_of(b));
}

/// Encoding then decoding gives the input bytes back, and the encoding is
/// itself a valid (lowercase) hex spelling.
pub proof fn lemma_hex_round_trip(b: Seq<u8>)
    ensures
        valid_hex_bytes(hex_bytes_of(b)),
        forall|i: int|
            0 <= i < hex_bytes_of(b).len() ==> is_lower_hex_byte(#[trigger] hex_bytes_of(b)[i]),
        hex_decode_bytes(hex_bytes_of(b)) =~= b,
{
    let e = hex_bytes_of(b);
    assert forall|i: int| 0 <= i < e.len() implies is_lower_hex_byte(#[trigger] e[i])
        && is_hex_byte(e[i]) by {
        if i % 2 == 0 {
            assert(e[i] == hex_digit((b[i / 2] as int) / 16) as u8);
        } else {
            assert(e[i] == hex_digit((b[i / 2] as int) % 16) as u8);
        }
    }
    assert forall|i: int| 0 <= i < hex_decode_bytes(e).len() implies hex_decode_bytes(e)[i] == b[i]
        by {
        let v = b[i] as int;
        assert(e[2 * i] == hex_digit(v / 16) as u8);
        assert(e[2 * i + 1] == hex_digit(v % 16) as u8);
        assert(hex_val(hex_digit(v / 16) as u8) == v / 16);
        assert(hex_val(hex_digit(v % 16) as u8) == v % 16);
        assert(v / 16 * 16 + v % 16 == v);
    }
}

/// Decoding then encoding gives a lowercase hex spelling back unchanged.
pub proof fn lemma_hex_encode_of_decode(s: Seq<u8>)
    requires
        s.len() % 2 == 0,
        forall|i: int| 0 <= i < s.len() ==> is_lower_hex_byte(#[trigger] s[i]),
    ensures
        hex_bytes_of(hex_decode_bytes(s)) =~= s,
{
    let d = hex_decode_bytes(s);
    assert forall|i: int| 0 <= i < hex_bytes_of(d).len() implies hex_bytes_of(d)[i] == s[i] by {
        let j = i / 2;
        let hi = hex_val(s[2 * j]);
        let lo = hex_val(s[2 * j + 1]);
        assert(0 <= hi < 16 && 0 <= lo < 16);
        assert(d[j] == (hi * 16 + lo) as u8);
        assert((d[j] as int) / 16 == hi && (d[j] as int) % 16 == lo);
        if i % 2 == 0 {
            assert(i == 2 * j);
            assert(hex_bytes_of(d)[i] == hex_digit(hi) as u8);
            assert(hex_digit(hi) as u8 == s[i]);
        } else {
            assert(i == 2 * j + 1);
            assert(hex_bytes_of(d)[i] == hex_digit(lo) as u8);
            assert(hex_digit(lo) as u8 == s[i]);
        }
    }
}

#[verifier::external_type_specification]
#[verifier::external_body]
pub struct ExFromHexError(hex::FromHexError);

/// Relies on hex::encode: each input byte becomes two lowercase hex digits,
/// most significant nibble first.
#[verifier::external_body]
pub fn hex_encode(b: &[u8]) -> (r: String)
    ensures
        r@ == hex_chars_of(b@),
{
    hex::encode(b)
}

/// Relies on hex::decode: it succeeds exactly on even-length strings of hex
/// digits (either case) and returns the bytes they spell.
#[verifier::external_body]
pub fn hex_decode(s: &str) -> (r: Result<Vec<u8>, hex::FromHexError>)
    ensures
        r is Ok <==> valid_hex_bytes(s.spec_bytes()),
        r is Ok ==> r->Ok_0@ == hex_decode_bytes(s.spec_bytes()),
{
    hex::decode(s)
}

} // verus!

//! Hexadecimal text, as bytes of ASCII digits.

use vstd::prelude::*;
use vstd::string::StringSliceAdditionalSpecFns;

verus! {

/// The value of one hex digit, upper or lower case.
pub open spec fn hex_digit_value(b: u8) -> Option<u8> {
    if 48 <= b <= 57 {
        Some((b - 48) as u8)
    } else if 97 <= b <= 102 {
        Some((b - 87) as u8)
    } else if 65 <= b <= 70 {
        Some((b - 55) as u8)
    } else {
        None
    }
}

/// The bytes that `s` spells as pairs of hex digits, high digit first; `None`
/// when its length is odd or a byte is not a hex digit.
pub open spec fn hex_decode(s: Seq<u8>) -> Option<Seq<u8>>
    decreases s.len(),
{
    if s.len() % 2 != 0 {
        None
    } else if s.len() == 0 {
        Some(Seq::empty())
    } else {
        match (hex_digit_value(s[0]), hex_digit_value(s[1]), hex_decode(s.subrange(2, s.len() as int))) {
            (Some(hi), Some(lo), Some(rest)) => Some(seq![(hi * 16 + lo) as u8] + rest),
            _ => None,
        }
    }
}

/// The lower-case hex digit for a value below 16.
pub open spec fn hex_digit(n: u8) -> u8 {
    if n < 10 {
        (48 + n) as u8
    } else {
        (87 + n) as u8
    }
}

/// The lower-case hex spelling of `b`, two digits per byte.
pub open spec fn hex_encode(b: Seq<u8>) -> Seq<u8>
    decreases b.len(),
{
    if b.len() == 0 {
        Seq::empty()
    } else {
        seq![hex_digit(b[0] / 16), hex_digit(b[0] % 16)] + hex_encode(b.drop_first())
    }
}

pub proof fn lemma_hex_encode_len(b: Seq<u8>)
    ensures
        hex_encode(b).len() == 2 * b.len(),
    decreases b.len(),
{
    if b.len() > 0 {
        lemma_hex_encode_len(b.drop_first());
    }
}

/// Decoding the hex spelling of some bytes gives those bytes back.
pub proof fn lemma_hex_round_trip(b: Seq<u8>)
    ensures
        hex_decode(hex_encode(b)) == Some(b),
    decreases b.len(),
{
    lemma_hex_encode_len(b);
    if b.len() > 0 {
        let rest = b.drop_first();
        lemma_hex_round_trip(rest);
        let e = hex_encode(b);
        assert(e.subrange(2, e.len() as int) =~= hex_encode(rest));
        let x = b[0];
        assert(hex_digit_value(hex_digit(x / 16)) == Some(x / 16));
        assert(hex_digit_value(hex_digit(x % 16)) == Some(x % 16));
        assert(((x / 16) * 16 + x % 16) as u8 == x);
        assert(seq![x] + rest =~= b);
    } else {
        assert(hex_encode(b) =~= Seq::<u8>::empty());
    }
}

/// Relies on `ring::test::from_hex`: it refuses a string of odd length or with
/// a byte that is not a hex digit (either case), and otherwise turns each pair
/// of digits into one byte, high digit first.
#[verifier::external_body]
#[allow(deprecated)]
pub(crate) fn decode_hex(s: &str) -> (r: Option<Vec<u8>>)
    ensures
        match r {
            Some(v) => hex_decode(s.spec_bytes()) == Some(v@),
            None => hex_decode(s.spec_bytes()) is None,
        },
{
    ring::test::from_hex(s).ok()
}

} // verus!

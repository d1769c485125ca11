//! Decimal integer literals, read the way `str::parse` reads them for signed
//! integers: an optional `+` or `-`, then one or more ASCII digits.

use vstd::prelude::*;
use vstd::slice::slice_subrange;

verus! {

pub open spec fn is_digit(b: u8) -> bool {
    48 <= b <= 57
}

pub open spec fn all_digits(s: Seq<u8>) -> bool {
    forall|i: int| 0 <= i < s.len() ==> is_digit(#[trigger] s[i])
}

/// The number written by a run of decimal digits, most significant first.
pub open spec fn digits_value(s: Seq<u8>) -> int
    decreases s.len(),
{
    if s.len() == 0 {
        0
    } else {
        digits_value(s.drop_last()) * 10 + (s.last() - 48)
    }
}

/// The number that a non-empty run of digits denotes.
pub open spec fn unsigned_value(s: Seq<u8>) -> Option<int> {
    if s.len() > 0 && all_digits(s) {
        Some(digits_value(s))
    } else {
        None
    }
}

/// The integer written by `s`: an optional sign followed by at least one digit.
pub open spec fn decimal_value(s: Seq<u8>) -> Option<int> {
    if s.len() > 0 && s[0] == 45u8 {
        match unsigned_value(s.drop_first()) {
            Some(v) => Some(-v),
            None => None,
        }
    } else if s.len() > 0 && s[0] == 43u8 {
        unsigned_value(s.drop_first())
    } else {
        unsigned_value(s)
    }
}

/// What parsing `s` as an `i64` gives.
pub open spec fn i64_value(s: Seq<u8>) -> Option<i64> {
    match decimal_value(s) {
        Some(v) => if i64::MIN <= v <= i64::MAX {
            Some(v as i64)
        } else {
            None
        },
        None => None,
    }
}

/// What parsing `s` as an `i128` gives.
pub open spec fn i128_value(s: Seq<u8>) -> Option<i128> {
    match decimal_value(s) {
        Some(v) => if i128::MIN <= v <= i128::MAX {
            Some(v as i128)
        } else {
            None
        },
        None => None,
    }
}

pub proof fn lemma_digits_value_nonneg(s: Seq<u8>)
    requires
        all_digits(s),
    ensures
        digits_value(s) >= 0,
    decreases s.len(),
{
    if s.len() > 0 {
        assert(all_digits(s.drop_last()));
        lemma_digits_value_nonneg(s.drop_last());
        assert(is_digit(s[s.len() - 1]));
    }
}

/// Reads `digits` as a number no larger than `limit`; `None` when a byte is not
/// a digit, when there are no digits, or when the number exceeds `limit`.
fn parse_magnitude(digits: &[u8], limit: u128) -> (r: Option<u128>)
    ensures
        r matches Some(m) ==> m <= limit,
        r == (match unsigned_value(digits@) {
            Some(v) => if v <= limit {
                Some(v as u128)
            } else {
                None
            },
            None => None,
        }),
{
    let n = digits.len();
    if n == 0 {
        return None;
    }
    let mut acc: u128 = 0;
    let mut overflow = false;
    let mut i: usize = 0;
    while i < n
        invariant
            n == digits@.len(),
            0 <= i <= n,
            all_digits(digits@.take(i as int)),
            !overflow ==> acc == digits_value(digits@.take(i as int)) && acc <= limit,
            overflow ==> digits_value(digits@.take(i as int)) > limit,
        decreases n - i,
    {
        let b = digits[i];
        if b < 48 || b > 57 {
            assert(!all_digits(digits@));
            return None;
        }
        let ghost prev = digits@.take(i as int);
        assert(digits@.take(i + 1).drop_last() =~= prev);
        assert(all_digits(digits@.take(i + 1)));
        proof {
            lemma_digits_value_nonneg(prev);
        }
        if !overflow {
            match acc.checked_mul(10) {
                Some(m) => match m.checked_add((b - 48) as u128) {
                    Some(v) => {
                        if v > limit {
                            overflow = true;
                        } else {
                            acc = v;
                        }
                    },
                    None => {
                        overflow = true;
                    },
                },
                None => {
                    overflow = true;
                },
            }
        }
        i = i + 1;
    }
    assert(digits@.take(n as int) =~= digits@);
    if overflow {
        None
    } else {
        Some(acc)
    }
}

/// Splits off a leading sign: whether the number is negative, and where its
/// digits start.
fn sign_prefix(s: &[u8]) -> (r: (bool, usize))
    ensures
        r.1 <= s@.len(),
        s@.len() > 0 && s@[0] == 45u8 ==> r == (true, 1usize),
        s@.len() > 0 && s@[0] == 43u8 ==> r == (false, 1usize),
        !(s@.len() > 0 && (s@[0] == 45u8 || s@[0] == 43u8)) ==> r == (false, 0usize),
{
    if s.len() > 0 && s[0] == 45 {
        (true, 1)
    } else if s.len() > 0 && s[0] == 43 {
        (false, 1)
    } else {
        (false, 0)
    }
}

/// Parses `s` as a signed 64-bit decimal integer.
pub fn parse_i64(s: &[u8]) -> (r: Option<i64>)
    ensures
        r == i64_value(s@),
{
    let (negative, start) = sign_prefix(s);
    let digits = slice_subrange(s, start, s.len());
    assert(start == 1 ==> digits@ =~= s@.drop_first());
    assert(start == 0 ==> digits@ =~= s@);
    proof {
        if all_digits(digits@) {
            lemma_digits_value_nonneg(digits@);
        }
    }
    if negative {
        match parse_magnitude(digits, 0x8000_0000_0000_0000u128) {
            Some(m) => {
                let v: i128 = 0i128 - (m as i128);
                Some(v as i64)
            },
            None => None,
        }
    } else {
        match parse_magnitude(digits, 0x7fff_ffff_ffff_ffffu128) {
            Some(m) => Some(m as i64),
            None => None,
        }
    }
}

/// Parses `s` as a signed 128-bit decimal integer.
pub fn parse_i128(s: &[u8]) -> (r: Option<i128>)
    ensures
        r == i128_value(s@),
{
    let (negative, start) = sign_prefix(s);
    let digits = slice_subrange(s, start, s.len());
    assert(start == 1 ==> digits@ =~= s@.drop_first());
    assert(start == 0 ==> digits@ =~= s@);
    proof {
        if all_digits(digits@) {
            lemma_digits_value_nonneg(digits@);
        }
    }
    if negative {
        match parse_magnitude(digits, 0x8000_0000_0000_0000_0000_0000_0000_0000u128) {
            Some(m) => if m == 0x8000_0000_0000_0000_0000_0000_0000_0000u128 {
                Some(i128::MIN)
            } else {
                let v: i128 = m as i128;
                Some(0i128 - v)
            },
            None => None,
        }
    } else {
        match parse_magnitude(digits, 0x7fff_ffff_ffff_ffff_ffff_ffff_ffff_ffffu128) {
            Some(m) => Some(m as i128),
            None => None,
        }
    }
}

} // verus!

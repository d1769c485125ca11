//! Points in time as plain numbers: seconds, or nanoseconds, since the Unix
//! epoch, limited to what `time::OffsetDateTime` can represent.

use vstd::prelude::*;
use vstd::slice::slice_subrange;
use vstd::string::StringSliceAdditionalSpecFns;

use crate::decimal::{i128_value, parse_i128};

verus! {

/// The first second that `time::OffsetDateTime` represents: -9999-01-01 00:00:00 UTC.
pub const MIN_UNIX_SECONDS: i64 = -377_705_116_800;

/// The last second that `time::OffsetDateTime` represents: 9999-12-31 23:59:59 UTC.
pub const MAX_UNIX_SECONDS: i64 = 253_402_300_799;

pub open spec fn supported_unix_seconds(t: int) -> bool {
    MIN_UNIX_SECONDS <= t <= MAX_UNIX_SECONDS
}

pub open spec fn supported_unix_nanos(n: int) -> bool {
    MIN_UNIX_SECONDS * 1_000_000_000 <= n <= MAX_UNIX_SECONDS * 1_000_000_000 + 999_999_999
}

/// Relies on `time::OffsetDateTime::from_unix_timestamp`: it accepts exactly the
/// seconds from `MIN_UNIX_SECONDS` through `MAX_UNIX_SECONDS`.
#[verifier::external_body]
fn seconds_representable(t: i64) -> (r: bool)
    ensures
        r == supported_unix_seconds(t as int),
{
    time::OffsetDateTime::from_unix_timestamp(t).is_ok()
}

/// Relies on `time::OffsetDateTime::from_unix_timestamp_nanos`: it accepts a
/// count of nanoseconds exactly when the whole seconds in it, rounded down, are
/// representable.
#[verifier::external_body]
fn nanos_representable(n: i128) -> (r: bool)
    ensures
        r == supported_unix_nanos(n as int),
{
    time::OffsetDateTime::from_unix_timestamp_nanos(n).is_ok()
}

/// Relies on `time::OffsetDateTime::now_utc`: the current time, in whole
/// seconds since the Unix epoch. Nothing is known of its value.
#[verifier::external_body]
pub(crate) fn now_unix_seconds() -> (r: i64) {
    time::OffsetDateTime::now_utc().unix_timestamp()
}

/// `t`, when it is a second that the calendar supports.
pub fn unix_seconds(t: i64) -> (r: Option<i64>)
    ensures
        r == (if supported_unix_seconds(t as int) {
            Some(t)
        } else {
            None::<i64>
        }),
{
    if seconds_representable(t) {
        Some(t)
    } else {
        None
    }
}

pub open spec fn fits_i128(n: int) -> bool {
    i128::MIN <= n <= i128::MAX
}

/// Where the piece of `s` that starts at `from` ends: the next `.`, or the end.
pub open spec fn piece_end(s: Seq<u8>, from: int) -> int
    decreases s.len() - from,
{
    if from < 0 || from >= s.len() {
        s.len() as int
    } else if s[from] == 46u8 {
        from
    } else {
        piece_end(s, from + 1)
    }
}

/// The pieces of `s` from `from` on, split at each `.` and each read as an
/// `i128`; `None` when any piece is not a decimal integer.
pub open spec fn piece_values(s: Seq<u8>, from: int) -> Option<Seq<i128>>
    decreases s.len() - from,
{
    let end = piece_end(s, from);
    match i128_value(s.subrange(from, end)) {
        None => None,
        Some(v) => if from <= end < s.len() {
            match piece_values(s, end + 1) {
                Some(rest) => Some(seq![v] + rest),
                None => None,
            }
        } else {
            Some(seq![v])
        },
    }
}

/// The instant that a message timestamp such as `"1716700028.123456"` names, in
/// nanoseconds: whole seconds, a `.`, then microseconds. Every `.`-separated
/// piece must be a decimal integer, there must be at least two, and the
/// instant must be one that the calendar supports. Seconds or microseconds so
/// large that their count of nanoseconds leaves the `i128` range are refused.
pub open spec fn ts_nanos(s: Seq<u8>) -> Option<i128> {
    match piece_values(s, 0) {
        Some(p) => if p.len() >= 2 && fits_i128(p[0] * 1_000_000_000) && fits_i128(p[1] * 1_000)
            && supported_unix_nanos(p[0] * 1_000_000_000 + p[1] * 1_000) {
            Some((p[0] * 1_000_000_000 + p[1] * 1_000) as i128)
        } else {
            None
        },
        None => None,
    }
}

fn find_piece_end(s: &[u8], from: usize) -> (r: usize)
    requires
        from <= s@.len(),
    ensures
        r == piece_end(s@, from as int),
        from <= r <= s@.len(),
{
    let mut i = from;
    while i < s.len() && s[i] != 46
        invariant
            from <= i <= s@.len(),
            piece_end(s@, from as int) == piece_end(s@, i as int),
        decreases s@.len() - i,
    {
        i = i + 1;
    }
    i
}

fn parse_pieces(s: &[u8], from: usize) -> (r: Option<Vec<i128>>)
    requires
        from <= s@.len(),
    ensures
        match r {
            Some(v) => piece_values(s@, from as int) == Some(v@),
            None => piece_values(s@, from as int) is None,
        },
    decreases s@.len() - from,
{
    let end = find_piece_end(s, from);
    let piece = slice_subrange(s, from, end);
    match parse_i128(piece) {
        None => None,
        Some(v) => {
            if end < s.len() {
                match parse_pieces(s, end + 1) {
                    Some(mut rest) => {
                        rest.insert(0, v);
                        assert(rest@ =~= seq![v] + rest@.drop_first());
                        Some(rest)
                    },
                    None => None,
                }
            } else {
                let mut one: Vec<i128> = Vec::new();
                one.push(v);
                assert(one@ =~= seq![v]);
                Some(one)
            }
        },
    }
}

/// Reads a message timestamp (`"<seconds>.<microseconds>"`) as nanoseconds
/// since the Unix epoch.
pub fn parse_ts_nanos(ts: &str) -> (r: Option<i128>)
    ensures
        r == ts_nanos(ts.spec_bytes()),
{
    let pieces = match parse_pieces(ts.as_bytes(), 0) {
        Some(p) => p,
        None => return None,
    };
    if pieces.len() < 2 {
        return None;
    }
    let secs = pieces[0];
    let micros = pieces[1];
    let n = match secs.checked_mul(1_000_000_000) {
        Some(a) => match micros.checked_mul(1_000) {
            Some(b) => match a.checked_add(b) {
                Some(n) => n,
                None => return None,
            },
            None => return None,
        },
        None => return None,
    };
    if nanos_representable(n) {
        Some(n)
    } else {
        None
    }
}

} // verus!

//! Authenticity checks for requests that Slack sends to an app: a timestamp
//! that is recent enough, and an HMAC-SHA256 signature over it and the body.

use vstd::prelude::*;
use vstd::string::StringSliceAdditionalSpecFns;

use crate::decimal::{i64_value, parse_i64};
use crate::hex::{decode_hex, hex_decode, hex_encode, lemma_hex_round_trip};
use crate::hmac::{hmac_input_fits, hmac_sha256, sign_hmac_sha256};
use crate::timestamp::{now_unix_seconds, supported_unix_seconds, unix_seconds};

verus! {

/// Why a request failed verification.
#[derive(Debug, Clone, Copy, PartialEq, Eq, Structural)]
pub enum VerificationError {
    /// The signature is well formed but is not the tag of this request.
    DigestMismatch,
    /// The signature is not a string of hex digits.
    SlackSignatureNotHex,
    /// The request was signed more than five minutes before now.
    TimestampTooOld,
    /// The timestamp is not a number of seconds that the calendar supports.
    InvalidTimestamp,
}

/// How long after its timestamp a request is still accepted, in seconds.
pub const FRESHNESS_WINDOW_SECONDS: i64 = 300;

/// The text that is signed: `v0:<timestamp>:<body>`, as bytes.
pub open spec fn base_string(timestamp: Seq<u8>, body: Seq<u8>) -> Seq<u8> {
    seq![118u8, 48u8, 58u8] + timestamp + seq![58u8] + body
}

/// The result of checking a request against the tag `digest` that it should
/// carry, at the time `now` (seconds since the Unix epoch). The checks run in
/// this order: the timestamp parses, it is recent enough, the signature is hex,
/// and it equals the tag.
pub open spec fn signature_outcome(
    timestamp: Seq<u8>,
    signature: Seq<u8>,
    digest: Seq<u8>,
    now: int,
) -> Result<(), VerificationError> {
    match i64_value(timestamp) {
        None => Err(VerificationError::InvalidTimestamp),
        Some(t) => if !supported_unix_seconds(t as int) {
            Err(VerificationError::InvalidTimestamp)
        } else if t + FRESHNESS_WINDOW_SECONDS < now {
            Err(VerificationError::TimestampTooOld)
        } else {
            match hex_decode(signature) {
                None => Err(VerificationError::SlackSignatureNotHex),
                Some(s) => if s == digest {
                    Ok(())
                } else {
                    Err(VerificationError::DigestMismatch)
                },
            }
        },
    }
}

/// The result of verifying a request signed with `secret`, at the time `now`.
pub open spec fn verification_outcome(
    secret: Seq<u8>,
    timestamp: Seq<u8>,
    signature: Seq<u8>,
    body: Seq<u8>,
    now: int,
) -> Result<(), VerificationError> {
    signature_outcome(timestamp, signature, hmac_sha256(secret, base_string(timestamp, body)), now)
}

/// Inputs short enough to be signed.
pub open spec fn signable(secret: Seq<u8>, timestamp: Seq<u8>, body: Seq<u8>) -> bool {
    hmac_input_fits(secret.len() as int) && hmac_input_fits((4 + timestamp.len() + body.len()) as int)
}

fn push_all(v: &mut Vec<u8>, b: &[u8])
    ensures
        final(v)@ == old(v)@ + b@,
{
    let mut i: usize = 0;
    while i < b.len()
        invariant
            0 <= i <= b@.len(),
            v@ == old(v)@ + b@.take(i as int),
        decreases b@.len() - i,
    {
        v.push(b[i]);
        assert(b@.take(i + 1) =~= b@.take(i as int).push(b@[i as int]));
        i = i + 1;
    }
    assert(b@.take(b@.len() as int) =~= b@);
}

fn signed_bytes(timestamp: &str, body: &str) -> (r: Vec<u8>)
    ensures
        r@ == base_string(timestamp.spec_bytes(), body.spec_bytes()),
{
    let mut v: Vec<u8> = Vec::new();
    v.push(118u8);
    v.push(48u8);
    v.push(58u8);
    push_all(&mut v, timestamp.as_bytes());
    v.push(58u8);
    push_all(&mut v, body.as_bytes());
    assert(v@ =~= base_string(timestamp.spec_bytes(), body.spec_bytes()));
    v
}

/// Compares two byte strings in time that depends on their lengths only: every
/// byte is looked at, whatever differences came before it.
pub fn constant_time_eq(a: &[u8], b: &[u8]) -> (r: bool)
    ensures
        r == (a@ == b@),
{
    if a.len() != b.len() {
        return false;
    }
    let mut diff: u8 = 0;
    let mut i: usize = 0;
    while i < a.len()
        invariant
            a@.len() == b@.len(),
            0 <= i <= a@.len(),
            (diff == 0) == (forall|j: int| 0 <= j < i ==> a@[j] == b@[j]),
        decreases a@.len() - i,
    {
        let x = a[i];
        let y = b[i];
        assert(((diff | (x ^ y)) == 0) == (diff == 0 && x == y)) by (bit_vector);
        diff = diff | (x ^ y);
        i = i + 1;
    }
    if diff == 0 {
        assert(a@ =~= b@);
        true
    } else {
        false
    }
}

/// Checks a request against the tag `digest` that it should carry, at the time
/// `now` in seconds since the Unix epoch.
pub fn check_signature(timestamp: &str, signature: &str, digest: &[u8], now: i64) -> (r: Result<
    (),
    VerificationError,
>)
    ensures
        r == signature_outcome(timestamp.spec_bytes(), signature.spec_bytes(), digest@, now as int),
{
    let t = match parse_i64(timestamp.as_bytes()) {
        Some(t) => t,
        None => return Err(VerificationError::InvalidTimestamp),
    };
    let t = match unix_seconds(t) {
        Some(t) => t,
        None => return Err(VerificationError::InvalidTimestamp),
    };
    if t + FRESHNESS_WINDOW_SECONDS < now {
        return Err(VerificationError::TimestampTooOld);
    }
    let sig = match decode_hex(signature) {
        Some(s) => s,
        None => return Err(VerificationError::SlackSignatureNotHex),
    };
    if constant_time_eq(sig.as_slice(), digest) {
        Ok(())
    } else {
        Err(VerificationError::DigestMismatch)
    }
}

/// Verifies that a request's body comes from Slack, at the time `now` in
/// seconds since the Unix epoch.
pub fn verify_at(signing_secret: &[u8], timestamp: &str, signature: &str, message: &str, now: i64) -> (r:
    Result<(), VerificationError>)
    requires
        signable(signing_secret@, timestamp.spec_bytes(), message.spec_bytes()),
    ensures
        r == verification_outcome(
            signing_secret@,
            timestamp.spec_bytes(),
            signature.spec_bytes(),
            message.spec_bytes(),
            now as int,
        ),
{
    let base = signed_bytes(timestamp, message);
    let digest = sign_hmac_sha256(signing_secret, base.as_slice());
    check_signature(timestamp, signature, digest.as_slice(), now)
}

/// Verifies that a request's body comes from Slack, at the current time.
pub fn verify(signing_secret: &[u8], timestamp: &str, signature: &str, message: &str) -> (r: Result<
    (),
    VerificationError,
>)
    requires
        signable(signing_secret@, timestamp.spec_bytes(), message.spec_bytes()),
    ensures
        exists|now: i64|
            r == verification_outcome(
                signing_secret@,
                timestamp.spec_bytes(),
                signature.spec_bytes(),
                message.spec_bytes(),
                now as int,
            ),
        !(i64_value(timestamp.spec_bytes()) matches Some(t) && supported_unix_seconds(t as int))
            ==> r == Err::<(), _>(VerificationError::InvalidTimestamp),
{
    let now = now_unix_seconds();
    verify_at(signing_secret, timestamp, signature, message, now)
}

/// Verification depends on the clock only through the freshness check: at two
/// times, the results are the same unless one of them is `TimestampTooOld`.
pub proof fn lemma_clock_only_decides_freshness(
    secret: Seq<u8>,
    timestamp: Seq<u8>,
    signature: Seq<u8>,
    body: Seq<u8>,
    now1: int,
    now2: int,
)
    ensures
        verification_outcome(secret, timestamp, signature, body, now1) == verification_outcome(
            secret,
            timestamp,
            signature,
            body,
            now2,
        ) || verification_outcome(secret, timestamp, signature, body, now1) == Err::<(), _>(
            VerificationError::TimestampTooOld,
        ) || verification_outcome(secret, timestamp, signature, body, now2) == Err::<(), _>(
            VerificationError::TimestampTooOld,
        ),
{
}

/// A request signed with the secret, as Slack signs it (lower-case hex of the
/// HMAC-SHA256 tag of `v0:<timestamp>:<body>`), passes verification at any time
/// up to five minutes after its timestamp.
pub proof fn lemma_signed_request_verifies(
    secret: Seq<u8>,
    timestamp: Seq<u8>,
    body: Seq<u8>,
    now: int,
)
    requires
        i64_value(timestamp) matches Some(t) && supported_unix_seconds(t as int) && now <= t
            + FRESHNESS_WINDOW_SECONDS,
    ensures
        verification_outcome(
            secret,
            timestamp,
            hex_encode(hmac_sha256(secret, base_string(timestamp, body))),
            body,
            now,
        ) == Ok::<(), VerificationError>(()),
{
    lemma_hex_round_trip(hmac_sha256(secret, base_string(timestamp, body)));
}

/// Flipping one bit of a correct signature, then spelling it in hex, gives
/// `DigestMismatch` whenever the timestamp is fresh.
pub proof fn lemma_flipped_signature_bit_mismatches(
    secret: Seq<u8>,
    timestamp: Seq<u8>,
    body: Seq<u8>,
    now: int,
    index: int,
    bit: u8,
)
    requires
        i64_value(timestamp) matches Some(t) && supported_unix_seconds(t as int) && now <= t
            + FRESHNESS_WINDOW_SECONDS,
        0 <= index < hmac_sha256(secret, base_string(timestamp, body)).len(),
        bit < 8,
    ensures
        ({
            let tag = hmac_sha256(secret, base_string(timestamp, body));
            let flipped = tag.update(index, tag[index] ^ (1u8 << bit));
            verification_outcome(secret, timestamp, hex_encode(flipped), body, now) == Err::<
                (),
                _,
            >(VerificationError::DigestMismatch)
        }),
{
    let tag = hmac_sha256(secret, base_string(timestamp, body));
    let x = tag[index];
    let flipped = tag.update(index, x ^ (1u8 << bit));
    lemma_hex_round_trip(flipped);
    assert((x ^ (1u8 << bit)) != x) by (bit_vector)
        requires
            bit < 8,
    ;
    assert(flipped[index] != tag[index]);
}

/// The freshness boundary is inclusive: a timestamp more than five minutes
/// before now is too old, and one exactly five minutes before now is accepted
/// when the signature is right.
pub proof fn lemma_freshness_boundary(secret: Seq<u8>, timestamp: Seq<u8>, body: Seq<u8>, now: int)
    requires
        i64_value(timestamp) matches Some(t) && supported_unix_seconds(t as int),
    ensures
        ({
            let t = i64_value(timestamp)->0;
            let good = hex_encode(hmac_sha256(secret, base_string(timestamp, body)));
            &&& (t + FRESHNESS_WINDOW_SECONDS < now ==> forall|signature: Seq<u8>|
                verification_outcome(secret, timestamp, signature, body, now) == Err::<(), _>(
                    VerificationError::TimestampTooOld,
                ))
            &&& (t + FRESHNESS_WINDOW_SECONDS == now ==> verification_outcome(
                secret,
                timestamp,
                good,
                body,
                now,
            ) == Ok::<(), VerificationError>(()))
        }),
{
    if i64_value(timestamp)->0 + FRESHNESS_WINDOW_SECONDS == now {
        lemma_signed_request_verifies(secret, timestamp, body, now);
    }
}

} // verus!

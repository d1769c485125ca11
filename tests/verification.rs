use slack_http::verification::{check_signature, constant_time_eq};
use slack_http::{verify, verify_at, VerificationError};

fn hex(bytes: &[u8]) -> String {
    let digits = b"0123456789abcdef";
    let mut out = String::new();
    for b in bytes {
        out.push(digits[(b >> 4) as usize] as char);
        out.push(digits[(b & 0x0f) as usize] as char);
    }
    out
}

fn slack_signature(secret: &[u8], timestamp: &str, body: &str) -> String {
    let key = ring::hmac::Key::new(ring::hmac::HMAC_SHA256, secret);
    let base = format!("v0:{}:{}", timestamp, body);
    hex(ring::hmac::sign(&key, base.as_bytes()).as_ref())
}

#[test]
fn signed_request_is_accepted_at_its_own_time_and_refused_301_seconds_later() {
    let secret = b"s3cr3t";
    let timestamp = "1531420618";
    let body = "token=x&team_id=y";
    let signature = slack_signature(secret, timestamp, body);
    assert_eq!(verify_at(secret, timestamp, &signature, body, 1531420618), Ok(()));
    assert_eq!(
        verify_at(secret, timestamp, &signature, body, 1531420618 + 301),
        Err(VerificationError::TimestampTooOld)
    );
}

#[test]
fn freshness_boundary_is_inclusive() {
    let secret = b"another secret";
    let timestamp = "1700000000";
    let body = "payload=%7B%7D";
    let signature = slack_signature(secret, timestamp, body);
    assert_eq!(verify_at(secret, timestamp, &signature, body, 1700000300), Ok(()));
    assert_eq!(
        verify_at(secret, timestamp, &signature, body, 1700000301),
        Err(VerificationError::TimestampTooOld)
    );
    assert_eq!(verify_at(secret, timestamp, &signature, body, 1600000000), Ok(()));
}

#[test]
fn signing_then_verifying_succeeds_for_several_inputs() {
    let cases: [(&[u8], &str, &str); 4] = [
        (b"", "0", ""),
        (b"k", "1531420618", "a=b"),
        (&[0u8; 100], "+42", "body with spaces and \u{e9}"),
        (b"s3cr3t", "-5", "x"),
    ];
    for (secret, timestamp, body) in cases {
        let signature = slack_signature(secret, timestamp, body);
        let t: i64 = timestamp.parse().unwrap();
        assert_eq!(verify_at(secret, timestamp, &signature, body, t), Ok(()));
        assert_eq!(verify_at(secret, timestamp, &signature.to_uppercase(), body, t), Ok(()));
    }
}

#[test]
fn flipping_a_bit_of_the_body_or_signature_is_a_mismatch() {
    let secret = b"s3cr3t";
    let timestamp = "1531420618";
    let body = "token=x&team_id=y";
    let key = ring::hmac::Key::new(ring::hmac::HMAC_SHA256, secret);
    let tag = ring::hmac::sign(&key, format!("v0:{}:{}", timestamp, body).as_bytes());
    let tag = tag.as_ref().to_vec();
    for i in 0..tag.len() {
        for bit in 0..8 {
            let mut flipped = tag.clone();
            flipped[i] ^= 1 << bit;
            assert_eq!(
                verify_at(secret, timestamp, &hex(&flipped), body, 1531420618),
                Err(VerificationError::DigestMismatch)
            );
        }
    }
    let signature = hex(&tag);
    let bytes = body.as_bytes();
    for i in 0..bytes.len() {
        for bit in 0..7 {
            let mut flipped = bytes.to_vec();
            flipped[i] ^= 1 << bit;
            let flipped = String::from_utf8(flipped).unwrap();
            assert_eq!(
                verify_at(secret, timestamp, &signature, &flipped, 1531420618),
                Err(VerificationError::DigestMismatch)
            );
        }
    }
}

#[test]
fn verification_is_deterministic() {
    let secret = b"s3cr3t";
    let signature = slack_signature(secret, "1531420618", "a");
    let first = verify_at(secret, "1531420618", &signature, "a", 1531420700);
    for _ in 0..5 {
        assert_eq!(verify_at(secret, "1531420618", &signature, "a", 1531420700), first);
    }
    let wrong = verify_at(secret, "1531420618", &signature, "b", 1531420700);
    assert_eq!(verify_at(secret, "1531420618", &signature, "b", 1531420700), wrong);
    assert_eq!(wrong, Err(VerificationError::DigestMismatch));
}

#[test]
fn unparseable_timestamps_are_invalid() {
    let secret = b"s3cr3t";
    for timestamp in ["", "-", "+", "12a", "1.5", " 1", "9223372036854775808", "abc"] {
        assert_eq!(
            verify_at(secret, timestamp, "00", "body", 0),
            Err(VerificationError::InvalidTimestamp),
            "{timestamp:?}"
        );
    }
}

#[test]
fn timestamps_outside_the_calendar_are_invalid() {
    let secret = b"s3cr3t";
    assert_eq!(
        verify_at(secret, "253402300800", "00", "b", 0),
        Err(VerificationError::InvalidTimestamp)
    );
    assert_eq!(
        verify_at(secret, "-377705116801", "00", "b", -377705116801),
        Err(VerificationError::InvalidTimestamp)
    );
    assert_eq!(
        verify_at(secret, "9223372036854775807", "00", "b", 0),
        Err(VerificationError::InvalidTimestamp)
    );
    assert_eq!(
        verify_at(secret, "253402300799", "00", "b", 0),
        Err(VerificationError::DigestMismatch)
    );
}

#[test]
fn malformed_signatures_are_not_hex() {
    let secret = b"s3cr3t";
    for signature in ["0", "zz", "abc", "0g", "v0=abcd"] {
        assert_eq!(
            verify_at(secret, "100", signature, "b", 100),
            Err(VerificationError::SlackSignatureNotHex),
            "{signature:?}"
        );
    }
}

#[test]
fn checks_run_in_order() {
    // Too old wins over a malformed signature; a bad timestamp wins over both.
    assert_eq!(
        check_signature("100", "zz", &[0u8], 401),
        Err(VerificationError::TimestampTooOld)
    );
    assert_eq!(
        check_signature("x100", "zz", &[0u8], 401),
        Err(VerificationError::InvalidTimestamp)
    );
    assert_eq!(check_signature("100", "zz", &[0u8], 400), Err(VerificationError::SlackSignatureNotHex));
}

#[test]
fn check_signature_decodes_hex_before_comparing() {
    assert_eq!(check_signature("100", "00ff", &[0x00, 0xff], 100), Ok(()));
    assert_eq!(check_signature("100", "00FF", &[0x00, 0xff], 100), Ok(()));
    assert_eq!(
        check_signature("100", "00ff", &[0x00, 0xfe], 100),
        Err(VerificationError::DigestMismatch)
    );
    assert_eq!(
        check_signature("100", "00ff", &[0x00, 0xff, 0x00], 100),
        Err(VerificationError::DigestMismatch)
    );
    assert_eq!(check_signature("100", "", &[], 100), Ok(()));
}

#[test]
fn constant_time_eq_compares_every_byte() {
    assert!(constant_time_eq(b"", b""));
    assert!(constant_time_eq(b"abc", b"abc"));
    assert!(!constant_time_eq(b"abc", b"abd"));
    assert!(!constant_time_eq(b"abc", b"ab"));
    assert!(!constant_time_eq(b"xbc", b"abc"));
}

#[test]
fn verify_uses_the_current_time() {
    let secret = b"s3cr3t";
    let old = slack_signature(secret, "1531420618", "a");
    assert_eq!(
        verify(secret, "1531420618", &old, "a"),
        Err(VerificationError::TimestampTooOld)
    );
    let now = std::time::SystemTime::now()
        .duration_since(std::time::UNIX_EPOCH)
        .unwrap()
        .as_secs()
        .to_string();
    let fresh = slack_signature(secret, &now, "a");
    assert_eq!(verify(secret, &now, &fresh, "a"), Ok(()));
    assert_eq!(verify(secret, "soon", &fresh, "a"), Err(VerificationError::InvalidTimestamp));
}

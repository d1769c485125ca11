use slack_http::decimal::{parse_i128, parse_i64};
use slack_http::timestamp::{parse_ts_nanos, unix_seconds, MAX_UNIX_SECONDS, MIN_UNIX_SECONDS};

#[test]
fn message_timestamps_become_nanoseconds() {
    assert_eq!(parse_ts_nanos("1716700028.123456"), Some(1_716_700_028_123_456_000));
    assert_eq!(parse_ts_nanos("1449252889.000001"), Some(1_449_252_889_000_001_000));
    assert_eq!(parse_ts_nanos("0.0"), Some(0));
    assert_eq!(parse_ts_nanos("1.2.3"), Some(1_000_002_000));
}

#[test]
fn malformed_message_timestamps_are_refused() {
    assert_eq!(parse_ts_nanos("1716700028"), None);
    assert_eq!(parse_ts_nanos(""), None);
    assert_eq!(parse_ts_nanos("1."), None);
    assert_eq!(parse_ts_nanos(".5"), None);
    assert_eq!(parse_ts_nanos("1.2.x"), None);
    assert_eq!(parse_ts_nanos("a.1"), None);
    assert_eq!(parse_ts_nanos("253402300800.0"), None);
    assert_eq!(parse_ts_nanos("1000000000000000000000000000000.0"), None);
}

#[test]
fn message_timestamp_range_edges() {
    assert_eq!(parse_ts_nanos("253402300799.999999"), Some(253_402_300_799_999_999_000));
    assert_eq!(parse_ts_nanos("-377705116800.0"), Some(-377_705_116_800_000_000_000));
    assert_eq!(parse_ts_nanos("-377705116800.-1"), None);
}

#[test]
fn unix_seconds_range() {
    assert_eq!(unix_seconds(0), Some(0));
    assert_eq!(unix_seconds(1449252889), Some(1449252889));
    assert_eq!(unix_seconds(MAX_UNIX_SECONDS), Some(MAX_UNIX_SECONDS));
    assert_eq!(unix_seconds(MIN_UNIX_SECONDS), Some(MIN_UNIX_SECONDS));
    assert_eq!(unix_seconds(MAX_UNIX_SECONDS + 1), None);
    assert_eq!(unix_seconds(MIN_UNIX_SECONDS - 1), None);
    assert_eq!(unix_seconds(i64::MAX), None);
}

#[test]
fn decimal_parsing_matches_std() {
    let cases = [
        "0", "7", "-7", "+7", "", "-", "+", "--1", "+-1", "1a", " 1", "1 ", "007",
        "9223372036854775807", "9223372036854775808", "-9223372036854775808",
        "-9223372036854775809", "170141183460469231731687303715884105727",
        "170141183460469231731687303715884105728", "-170141183460469231731687303715884105728",
        "-170141183460469231731687303715884105729", "99999999999999999999999999999999999999999",
        "\u{665}",
    ];
    for case in cases {
        assert_eq!(parse_i64(case.as_bytes()), case.parse::<i64>().ok(), "{case:?}");
        assert_eq!(parse_i128(case.as_bytes()), case.parse::<i128>().ok(), "{case:?}");
    }
}

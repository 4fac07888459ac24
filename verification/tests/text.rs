// Decimal and ISO 8601 texts.

use nanomsg::format::{push_bool, push_decimal, push_digits, push_padded};
use nanomsg::Duration;

fn decimal(n: i64) -> String {
    let mut s = String::new();
    push_decimal(&mut s, n);
    s
}

#[test]
fn decimal_texts() {
    assert_eq!(decimal(0), "0");
    assert_eq!(decimal(7), "7");
    assert_eq!(decimal(10), "10");
    assert_eq!(decimal(-2), "-2");
    assert_eq!(decimal(1234567890), "1234567890");
    assert_eq!(decimal(i64::MAX), "9223372036854775807");
    assert_eq!(decimal(i64::MIN), "-9223372036854775808");
    let mut s = "x=".to_string();
    push_digits(&mut s, u64::MAX);
    assert_eq!(s, "x=18446744073709551615");
}

#[test]
fn padded_and_bool_texts() {
    let mut s = String::new();
    push_padded(&mut s, 5, 3);
    push_padded(&mut s, 42, 3);
    push_padded(&mut s, 999, 3);
    push_padded(&mut s, 1500, 6);
    push_padded(&mut s, 12345, 2);
    push_padded(&mut s, 7, 0);
    push_bool(&mut s, true);
    push_bool(&mut s, false);
    assert_eq!(s, "00504299900150045truefalse");
}

#[test]
fn iso_duration_texts() {
    let iso = |ms: i64| Duration::milliseconds(ms).to_iso_string();
    assert_eq!(iso(0), "PT0S");
    assert_eq!(iso(1024), "PT1.024S");
    assert_eq!(iso(-2), "-PT0.002S");
    assert_eq!(iso(5000), "PT5S");
    assert_eq!(iso(86_400_000), "P1D");
    assert_eq!(iso(-86_400_000), "-P1D");
    assert_eq!(iso(86_401_500), "P1DT1.500S");
    assert_eq!(iso(2 * 86_400_000 + 30), "P2DT0.030S");
    assert_eq!(iso(i64::MIN), "-P106751991167DT25975.808S");
}

#[test]
fn milliseconds_round_trip() {
    for ms in [0i64, 1, -1, 1024, -2, 60042, i64::MAX, i64::MIN] {
        assert_eq!(Duration::milliseconds(ms).num_milliseconds(), ms);
    }
}

#[test]
fn sub_millisecond_texts() {
    assert_eq!(Duration::microseconds(1500).to_iso_string(), "PT0.001500S");
    assert_eq!(Duration::microseconds(2_000_000).to_iso_string(), "PT2S");
    assert_eq!(Duration::nanoseconds(1).to_iso_string(), "PT0.000000001S");
    assert_eq!(Duration::nanoseconds(-1500).to_iso_string(), "-PT0.000001500S");
    assert_eq!(Duration::nanoseconds(3_000_000).to_iso_string(), "PT0.003S");
}

#[test]
fn whole_milliseconds_round_toward_zero() {
    assert_eq!(Duration::microseconds(1999).num_milliseconds(), 1);
    assert_eq!(Duration::microseconds(-1500).num_milliseconds(), -1);
    assert_eq!(Duration::nanoseconds(-999_999).num_milliseconds(), 0);
    assert_eq!(Duration::nanoseconds(i64::MAX).num_milliseconds(), 9_223_372_036_854);
}

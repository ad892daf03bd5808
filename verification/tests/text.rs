use api_key::clock::shown;
use api_key::digest::constant_time_eq;
use api_key::text::{decimal, hex};

#[test]
fn bytes_are_written_in_lower_case_hexadecimal() {
    assert_eq!(hex(&[]), "");
    assert_eq!(hex(&[0x00, 0x0f, 0xf0, 0xff]), "000ff0ff");
    assert_eq!(
        hex(&[0x01, 0x23, 0x45, 0x67, 0x89, 0xab, 0xcd, 0xef]),
        "0123456789abcdef"
    );
}

#[test]
fn numbers_are_written_in_decimal() {
    for n in [0, 7, 10, 100, 1_800_000_000, -1, -86_400, i64::MAX, i64::MIN] {
        assert_eq!(decimal(n), n.to_string());
    }
    assert_eq!(decimal(i64::MIN), "-9223372036854775808");
}

#[test]
fn bytes_are_the_same_where_all_of_them_are() {
    assert!(constant_time_eq(&[], &[]));
    assert!(constant_time_eq(&[1, 2, 3], &[1, 2, 3]));
    assert!(!constant_time_eq(&[1, 2, 3], &[1, 2, 4]));
    assert!(!constant_time_eq(&[1, 2, 3], &[0, 2, 3]));
    assert!(!constant_time_eq(&[1, 2, 3], &[1, 2]));
    assert!(!constant_time_eq(&[0x80], &[0x00]));
}

#[test]
fn a_clock_shows_seconds_within_bounds() {
    assert_eq!(shown(None), 0);
    assert_eq!(shown(Some(0)), 0);
    assert_eq!(shown(Some(1_800_000_000)), 1_800_000_000);
    assert_eq!(shown(Some(9_223_372_036_854_775_807)), i64::MAX);
    assert_eq!(shown(Some(9_223_372_036_854_775_808)), i64::MAX);
    assert_eq!(shown(Some(u64::MAX)), i64::MAX);
}

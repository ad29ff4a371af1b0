use fuzz_core::{timeout_from_millis_str, FuzzError};
use fuzz_core::generate::generate_printable;

#[test]
fn parse_plain_millis() {
    assert_eq!(timeout_from_millis_str("10000"), Ok(10000));
    assert_eq!(timeout_from_millis_str("0"), Ok(0));
    assert_eq!(timeout_from_millis_str("5000"), Ok(5000));
    assert_eq!(timeout_from_millis_str("18446744073709551615"), Ok(u64::MAX));
}

#[test]
fn parse_accepts_one_leading_plus() {
    assert_eq!(timeout_from_millis_str("+5"), Ok(5));
    assert_eq!(timeout_from_millis_str("+10000"), Ok(10000));
    assert_eq!(timeout_from_millis_str("+"), Err(FuzzError::IllegalArgument));
    assert_eq!(timeout_from_millis_str("++5"), Err(FuzzError::IllegalArgument));
}

#[test]
fn parse_rejects_bad_strings() {
    assert_eq!(timeout_from_millis_str(""), Err(FuzzError::IllegalArgument));
    assert_eq!(timeout_from_millis_str("12a"), Err(FuzzError::IllegalArgument));
    assert_eq!(timeout_from_millis_str("-5"), Err(FuzzError::IllegalArgument));
    assert_eq!(timeout_from_millis_str(" 7"), Err(FuzzError::IllegalArgument));
}

#[test]
fn parse_rejects_overflow() {
    assert_eq!(
        timeout_from_millis_str("18446744073709551616"),
        Err(FuzzError::IllegalArgument)
    );
    assert_eq!(
        timeout_from_millis_str("99999999999999999999999"),
        Err(FuzzError::IllegalArgument)
    );
}

#[test]
fn generate_printable_maps_bytes() {
    let raw: Vec<u8> = vec![0, 255, 94, 95, 200];
    let out = generate_printable(&raw, 10);
    // 32 + (b % 95) for each raw byte.
    assert_eq!(out, vec![32, 97, 126, 32, 42]);
    for b in &out {
        assert!((32..=126).contains(b));
    }
}

#[test]
fn generate_printable_truncates() {
    let raw: Vec<u8> = vec![1; 100];
    let out = generate_printable(&raw, 8);
    assert_eq!(out.len(), 8);
    let short = generate_printable(&raw, 10240);
    assert_eq!(short.len(), 100);
}

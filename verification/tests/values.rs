//! Plain value types: decimals, integers, errors, the endpoint.

use jqdata::decimal::Decimal;
use jqdata::error::Error;
use jqdata::num::parse_i32;

#[test]
fn decimal_accepts_numerals() {
    for ok in ["0", "42", "100.5", "-0.5", "+3", "1e5", "2.5E-3", "-12.000", "3e+07"] {
        let d = Decimal::parse(ok).unwrap();
        assert_eq!(d.as_text(), ok);
    }
}

#[test]
fn decimal_rejects_malformed_text() {
    for bad in ["", ".", ".5", "1.", "abc", "1e", "1e+", "--1", "1.2.3", "1 "] {
        assert!(matches!(Decimal::parse(bad), Err(Error::Decode(_))), "{}", bad);
    }
}

#[test]
fn parse_i32_matches_integer_semantics() {
    assert_eq!(parse_i32("42").unwrap(), 42);
    assert_eq!(parse_i32("+42").unwrap(), 42);
    assert_eq!(parse_i32("-42").unwrap(), -42);
    assert_eq!(parse_i32("007").unwrap(), 7);
    assert_eq!(parse_i32("2147483647").unwrap(), 2147483647);
    assert_eq!(parse_i32("-2147483648").unwrap(), -2147483648);
    assert!(parse_i32("2147483648").is_err());
    assert!(parse_i32("-2147483649").is_err());
    assert!(parse_i32("").is_err());
    assert!(parse_i32("-").is_err());
    assert!(parse_i32("4 2").is_err());
    assert!(parse_i32("0x10").is_err());
}

#[test]
fn error_kinds_describe_themselves() {
    assert_eq!(
        Error::Transport(String::from("timed out")).describe(),
        "transport error: timed out"
    );
    assert_eq!(Error::Server(String::from("error: x")).describe(), "server error: error: x");
    assert_eq!(Error::Decode(String::from("bad row")).describe(), "decode error: bad row");
    assert_eq!(Error::Encode(String::from("bad field")).describe(), "encode error: bad field");
    assert_eq!(Error::NoCredential.describe(), "no credential available");
}

#[test]
fn endpoint_is_fixed() {
    assert_eq!(jqdata::jqdata_url(), "https://dataapi.joinquant.com/apis");
}

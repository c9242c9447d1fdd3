use alar2::digits::{parse_u8, u8_to_decimal};
use alar2::text::FatalParseError;

#[test]
fn parse_u8_reads_decimals() {
    assert_eq!(parse_u8("1"), Ok(1));
    assert_eq!(parse_u8("14"), Ok(14));
    assert_eq!(parse_u8("255"), Ok(255));
    assert_eq!(parse_u8("0"), Ok(0));
    assert_eq!(parse_u8("007"), Ok(7));
}

#[test]
fn parse_u8_rejects_bad_shapes() {
    assert_eq!(parse_u8(""), Err(FatalParseError));
    assert_eq!(parse_u8("256"), Err(FatalParseError));
    assert_eq!(parse_u8("999999"), Err(FatalParseError));
    assert_eq!(parse_u8("12a"), Err(FatalParseError));
    assert_eq!(parse_u8("-1"), Err(FatalParseError));
    assert_eq!(parse_u8(" 1"), Err(FatalParseError));
}

#[test]
fn u8_to_decimal_renders() {
    assert_eq!(u8_to_decimal(0), "0");
    assert_eq!(u8_to_decimal(7), "7");
    assert_eq!(u8_to_decimal(10), "10");
    assert_eq!(u8_to_decimal(42), "42");
    assert_eq!(u8_to_decimal(100), "100");
    assert_eq!(u8_to_decimal(250), "250");
    assert_eq!(u8_to_decimal(255), "255");
}

#[test]
fn decimal_round_trip() {
    let mut n: u16 = 0;
    while n <= 255 {
        assert_eq!(parse_u8(&u8_to_decimal(n as u8)), Ok(n as u8));
        n += 1;
    }
}

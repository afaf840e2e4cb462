use error_code::status::{CodeParseError, parse_decimal_code};

#[test]
fn parses_plain_decimal_codes() {
    assert_eq!(parse_decimal_code("400"), Ok(400));
    assert_eq!(parse_decimal_code("0"), Ok(0));
    assert_eq!(parse_decimal_code("007"), Ok(7));
    assert_eq!(parse_decimal_code("65535"), Ok(65535));
    assert_eq!(parse_decimal_code("000065535"), Ok(65535));
}

#[test]
fn rejects_the_empty_code() {
    assert_eq!(parse_decimal_code(""), Err(CodeParseError::Empty));
}

#[test]
fn rejects_codes_with_a_non_digit() {
    assert_eq!(parse_decimal_code("not-a-status"), Err(CodeParseError::NotADigit));
    assert_eq!(parse_decimal_code("4x4"), Err(CodeParseError::NotADigit));
    assert_eq!(parse_decimal_code("-4"), Err(CodeParseError::NotADigit));
    assert_eq!(parse_decimal_code("+4"), Err(CodeParseError::NotADigit));
    assert_eq!(parse_decimal_code("99999999x"), Err(CodeParseError::NotADigit));
}

#[test]
fn rejects_codes_whose_value_does_not_fit() {
    assert_eq!(parse_decimal_code("65536"), Err(CodeParseError::Overflow));
    assert_eq!(parse_decimal_code("99999999999999999999"), Err(CodeParseError::Overflow));
}

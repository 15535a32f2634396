use logster::duration::{parse_duration, unit_factor, DurationError};

#[test]
fn parses_each_unit() {
    assert_eq!(parse_duration("30s"), Ok(30_000));
    assert_eq!(parse_duration("15m"), Ok(900_000));
    assert_eq!(parse_duration("2h"), Ok(7_200_000));
    assert_eq!(parse_duration("1d"), Ok(86_400_000));
}

#[test]
fn units_are_case_insensitive() {
    assert_eq!(parse_duration("30S"), Ok(30_000));
    assert_eq!(parse_duration("15M"), Ok(900_000));
    assert_eq!(parse_duration("2H"), Ok(7_200_000));
    assert_eq!(parse_duration("1D"), Ok(86_400_000));
}

#[test]
fn signs_and_zero() {
    assert_eq!(parse_duration("0h"), Ok(0));
    assert_eq!(parse_duration("+3s"), Ok(3_000));
    assert_eq!(parse_duration("-1h"), Ok(-3_600_000));
}

#[test]
fn unknown_unit_is_refused() {
    assert_eq!(parse_duration("5x"), Err(DurationError::InvalidUnit));
}

#[test]
fn number_is_read_before_unit() {
    assert_eq!(parse_duration("5"), Err(DurationError::InvalidNumber));
    assert_eq!(parse_duration("10ms"), Err(DurationError::InvalidNumber));
}

#[test]
fn non_numeric_prefix_is_refused() {
    assert_eq!(parse_duration("abch"), Err(DurationError::InvalidNumber));
    assert_eq!(parse_duration("h"), Err(DurationError::InvalidNumber));
    assert_eq!(parse_duration(""), Err(DurationError::InvalidNumber));
    assert_eq!(parse_duration("1.5h"), Err(DurationError::InvalidNumber));
    assert_eq!(parse_duration("1h30m"), Err(DurationError::InvalidNumber));
    assert_eq!(parse_duration(" 1h"), Err(DurationError::InvalidNumber));
    assert_eq!(parse_duration("-h"), Err(DurationError::InvalidNumber));
}

#[test]
fn multibyte_last_character_is_refused() {
    assert_eq!(parse_duration("1é"), Err(DurationError::InvalidUnit));
}

#[test]
fn number_outside_i64_is_refused() {
    assert_eq!(parse_duration("9223372036854775808s"), Err(DurationError::InvalidNumber));
}

#[test]
fn product_outside_i64_is_refused() {
    assert_eq!(parse_duration("9223372036854775807d"), Err(DurationError::OutOfRange));
    assert_eq!(parse_duration("-9223372036854775808s"), Err(DurationError::OutOfRange));
    assert_eq!(parse_duration("106751991168d"), Err(DurationError::OutOfRange));
    assert_eq!(parse_duration("106751991167d"), Ok(106_751_991_167 * 86_400_000));
}

#[test]
fn unit_factors() {
    assert_eq!(unit_factor('s'), Some(1000));
    assert_eq!(unit_factor('M'), Some(60_000));
    assert_eq!(unit_factor('h'), Some(3_600_000));
    assert_eq!(unit_factor('D'), Some(86_400_000));
    assert_eq!(unit_factor('w'), None);
}

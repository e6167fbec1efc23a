use sagansearch::store::{initial_cursor, parse_start, SavedState, StartError, DEFAULT_START};

#[test]
fn the_default_start_offset() {
    assert_eq!(DEFAULT_START, 100_000_000_000_000);
}

#[test]
fn a_saved_state_holds_its_cursor() {
    let state = SavedState::new(99_000);
    assert_eq!(state.digit_start(), 99_000);
    assert_eq!(state, SavedState { digit_start: 99_000 });
}

#[test]
fn an_explicit_start_overrides_a_saved_one() {
    assert_eq!(
        initial_cursor(Some(7), Some(SavedState::new(99)), DEFAULT_START),
        7
    );
    assert_eq!(initial_cursor(Some(7), None, DEFAULT_START), 7);
}

#[test]
fn a_saved_start_overrides_the_default() {
    assert_eq!(
        initial_cursor(None, Some(SavedState::new(99)), DEFAULT_START),
        99
    );
}

#[test]
fn the_default_is_the_last_resort() {
    assert_eq!(
        initial_cursor(None, None, DEFAULT_START),
        100_000_000_000_000
    );
    assert_eq!(initial_cursor(None, None, 5), 5);
}

#[test]
fn a_start_argument_is_a_decimal_number() {
    assert_eq!(parse_start("0"), Ok(0));
    assert_eq!(parse_start("100"), Ok(100));
    assert_eq!(parse_start("000100"), Ok(100));
    assert_eq!(parse_start("+100"), Ok(100));
    assert_eq!(parse_start("100_000"), Ok(100_000));
    assert_eq!(parse_start("100000000000000"), Ok(100_000_000_000_000));
}

#[test]
fn the_largest_start_argument() {
    assert_eq!(parse_start("18446744073709551615"), Ok(u64::MAX));
}

#[test]
fn a_start_argument_beyond_the_offsets_is_too_large() {
    assert_eq!(
        parse_start("18446744073709551616"),
        Err(StartError::TooLarge)
    );
    assert_eq!(
        parse_start("340282366920938463463374607431768211456"),
        Err(StartError::TooLarge)
    );
}

#[test]
fn a_start_argument_that_is_no_number_is_refused() {
    assert_eq!(parse_start(""), Err(StartError::NotDecimal));
    assert_eq!(parse_start("-1"), Err(StartError::NotDecimal));
    assert_eq!(parse_start("ten"), Err(StartError::NotDecimal));
    assert_eq!(parse_start("1e6"), Err(StartError::NotDecimal));
    assert_eq!(parse_start(" 100"), Err(StartError::NotDecimal));
}

use memlab::selection::{decide, interpret, is_quit, parse_number, Command, SelectionError};

#[test]
fn non_numeric_input_is_invalid_number() {
    assert_eq!(interpret("abc", 13, 0), Err(SelectionError::InvalidNumber));
    assert_eq!(interpret("", 13, 0), Err(SelectionError::InvalidNumber));
    assert_eq!(interpret("-", 13, 0), Err(SelectionError::InvalidNumber));
    assert_eq!(interpret("1a", 13, 0), Err(SelectionError::InvalidNumber));
    assert_eq!(interpret(" 1", 13, 0), Err(SelectionError::InvalidNumber));
}

#[test]
fn zero_is_invalid_choice() {
    assert_eq!(interpret("0", 13, 3), Err(SelectionError::InvalidChoice));
    assert_eq!(interpret("-0", 13, 3), Err(SelectionError::InvalidChoice));
}

#[test]
fn index_past_catalog_is_invalid_choice() {
    assert_eq!(interpret("11", 10, 0), Err(SelectionError::InvalidChoice));
    assert_eq!(interpret("10", 10, 0), Ok(Command::Construct(10)));
}

#[test]
fn removal_from_empty_set_is_invalid_choice() {
    assert_eq!(interpret("-1", 13, 0), Err(SelectionError::InvalidChoice));
    assert_eq!(interpret("-1", 13, 1), Ok(Command::Remove(1)));
    assert_eq!(interpret("-2", 13, 1), Err(SelectionError::InvalidChoice));
}

#[test]
fn parse_number_follows_decimal_i32() {
    assert_eq!(parse_number("+5"), Some(5));
    assert_eq!(parse_number("007"), Some(7));
    assert_eq!(parse_number("-2147483648"), Some(i32::MIN));
    assert_eq!(parse_number("2147483647"), Some(i32::MAX));
    assert_eq!(parse_number("2147483648"), None);
    assert_eq!(parse_number("-2147483649"), None);
    assert_eq!(parse_number("99999999999999999999"), None);
    assert_eq!(parse_number("+"), None);
    assert_eq!(parse_number("١"), None);
}

#[test]
fn decide_handles_extremes() {
    assert_eq!(decide(i32::MIN, 13, 5), Err(SelectionError::InvalidChoice));
    assert_eq!(decide(i32::MAX, 13, 5), Err(SelectionError::InvalidChoice));
    assert_eq!(decide(1, 13, 0), Ok(Command::Construct(1)));
    assert_eq!(decide(-5, 13, 5), Ok(Command::Remove(5)));
}

#[test]
fn quit_word_ignores_ascii_case() {
    assert!(is_quit("quit"));
    assert!(is_quit("QuIT"));
    assert!(!is_quit("quits"));
    assert!(!is_quit("qui"));
    assert!(!is_quit("exit"));
}

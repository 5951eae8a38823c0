use oblivious_fibonacci::input::parse_index;
use oblivious_fibonacci::input::InputError;

#[test]
fn rejects_text_that_is_not_a_number() {
    assert_eq!(parse_index(b"abc"), Err(InputError::InputParse));
}

#[test]
fn rejects_negative_input() {
    assert_eq!(parse_index(b"-1"), Err(InputError::InputParse));
}

#[test]
fn accepts_the_largest_index() {
    assert_eq!(parse_index(b"24"), Ok(24));
}

#[test]
fn accepts_zero() {
    assert_eq!(parse_index(b"0"), Ok(0));
}

#[test]
fn accepts_leading_zeros() {
    assert_eq!(parse_index(b"0007"), Ok(7));
}

#[test]
fn accepts_a_leading_plus_sign() {
    assert_eq!(parse_index(b"+24"), Ok(24));
    assert_eq!(parse_index(b"+0"), Ok(0));
}

#[test]
fn rejects_a_sign_without_digits() {
    assert_eq!(parse_index(b"+"), Err(InputError::InputParse));
}

#[test]
fn rejects_a_doubled_sign() {
    assert_eq!(parse_index(b"++7"), Err(InputError::InputParse));
}

#[test]
fn rejects_signed_input_above_the_bound() {
    assert_eq!(parse_index(b"+25"), Err(InputError::DomainBoundExceeded));
}

#[test]
fn rejects_empty_input() {
    assert_eq!(parse_index(b""), Err(InputError::InputParse));
}

#[test]
fn rejects_index_just_above_the_bound() {
    assert_eq!(parse_index(b"25"), Err(InputError::DomainBoundExceeded));
}

#[test]
fn rejects_numbers_wider_than_the_domain() {
    assert_eq!(parse_index(b"65536"), Err(InputError::DomainBoundExceeded));
    assert_eq!(parse_index(b"99999999999999999999"), Err(InputError::DomainBoundExceeded));
}

#[test]
fn rejects_inner_whitespace() {
    assert_eq!(parse_index(b"1 2"), Err(InputError::InputParse));
}

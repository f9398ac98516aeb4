use std::any::TypeId;
use std::fmt;
use std::num::ParseIntError;

use barge::errs::{AssertionError, BoxedError, Result};

fn parse_failure() -> ParseIntError {
    "x".parse::<u32>().unwrap_err()
}

#[test]
fn assertion_error_to_string() {
    let err = AssertionError::new("foo and bar");

    assert_eq!(err.to_string(), "AssertionError: foo and bar".to_string());
}

#[test]
fn assertion_error_takes_an_owned_message() {
    let err = AssertionError::new(String::from("state lock held across await"));

    assert_eq!(err.to_string(), "AssertionError: state lock held across await");
}

#[test]
fn assertion_error_from_message_keeps_the_message() {
    let err = AssertionError::from_message(String::from("vote_count above peer_count"));

    assert_eq!(err.to_string(), "AssertionError: vote_count above peer_count");
}

#[test]
fn assertion_error_hands_out_its_message() {
    let err = AssertionError::new("term went backwards");

    assert_eq!(err.message(), "term went backwards");
}

#[test]
fn assertion_error_with_empty_message() {
    let err = AssertionError::new("");

    assert_eq!(err.to_string(), "AssertionError: ");
}

#[test]
fn boxed_error_shows_its_cause() {
    let text = parse_failure().to_string();
    let err = BoxedError::new(parse_failure());

    assert_eq!(err.to_string(), text);
    assert_eq!(err.to_string(), "invalid digit found in string");
    assert_eq!(err.detail_message(), None);
}

#[test]
fn boxed_error_shows_its_detail_message_above_the_cause() {
    let err = BoxedError::with_detail_message(parse_failure(), "cannot read the port");

    assert_eq!(err.detail_message(), Some("cannot read the port"));
    assert_eq!(
        err.to_string(),
        "Error: cannot read the port\nCaused by: invalid digit found in string"
    );
}

#[test]
fn boxed_error_takes_an_owned_detail_message() {
    let err = BoxedError::with_detail_message(fmt::Error, String::from("formatting"));

    assert_eq!(err.detail_message(), Some("formatting"));
    assert_eq!(err.to_string(), format!("Error: formatting\nCaused by: {}", fmt::Error));
}

#[test]
fn boxed_error_knows_the_type_of_its_cause() {
    let err = BoxedError::new(parse_failure());

    assert!(err.is::<ParseIntError>());
    assert!(!err.is::<fmt::Error>());
    assert!(err.has_type_id(&TypeId::of::<ParseIntError>()));
    assert!(!err.has_type_id(&TypeId::of::<fmt::Error>()));
}

#[test]
fn boxed_error_with_detail_knows_the_type_of_its_cause() {
    let err = BoxedError::with_detail_message(fmt::Error, "while printing");

    assert!(err.is::<fmt::Error>());
    assert!(!err.is::<ParseIntError>());
}

#[test]
fn boxed_error_from_parts_keeps_every_part() {
    let plain = BoxedError::from_parts(String::from("disk full"), TypeId::of::<fmt::Error>(), None);
    assert_eq!(plain.to_string(), "disk full");
    assert_eq!(plain.detail_message(), None);
    assert!(plain.is::<fmt::Error>());

    let detailed = BoxedError::from_parts(
        String::from("disk full"),
        TypeId::of::<ParseIntError>(),
        Some(String::from("cannot save")),
    );
    assert_eq!(detailed.to_string(), "Error: cannot save\nCaused by: disk full");
    assert_eq!(detailed.detail_message(), Some("cannot save"));
    assert!(detailed.is::<ParseIntError>());
    assert!(!detailed.is::<fmt::Error>());
}

#[test]
fn boxed_error_comes_apart_into_the_parts_it_was_made_of() {
    let made = BoxedError::from_parts(
        String::from("disk full"),
        TypeId::of::<fmt::Error>(),
        Some(String::from("cannot save")),
    );
    assert_eq!(
        made.into_parts(),
        (String::from("disk full"), TypeId::of::<fmt::Error>(), Some(String::from("cannot save")))
    );

    let (cause, type_id, detail) = BoxedError::new(parse_failure()).into_parts();
    assert_eq!(cause, "invalid digit found in string");
    assert_eq!(type_id, TypeId::of::<ParseIntError>());
    assert_eq!(detail, None);
}

#[test]
fn result_alias_carries_a_boxed_error() {
    let failed: Result<u32> = Err(BoxedError::new(parse_failure()));

    match failed {
        Ok(_) => panic!("an error was put in"),
        Err(err) => assert!(err.is::<ParseIntError>()),
    }
}

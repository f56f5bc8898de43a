use fennec::error::Cause;
use fennec::error::ErrorKind;
use fennec::error::FennecError;
use fennec::text::decimal;
use fennec::text::join;
use fennec::text::signed_decimal;

#[test]
fn decimal_renders_digits_without_leading_zeros() {
    assert_eq!(decimal(0), "0");
    assert_eq!(decimal(7), "7");
    assert_eq!(decimal(10), "10");
    assert_eq!(decimal(65536), "65536");
    assert_eq!(decimal(u64::MAX), "18446744073709551615");
}

#[test]
fn signed_decimal_puts_a_minus_before_negative_numbers() {
    assert_eq!(signed_decimal(0), "0");
    assert_eq!(signed_decimal(-1), "-1");
    assert_eq!(signed_decimal(1000001002), "1000001002");
    assert_eq!(signed_decimal(i64::MIN), "-9223372036854775808");
    assert_eq!(signed_decimal(i64::MAX), "9223372036854775807");
}

#[test]
fn join_puts_two_texts_together() {
    assert_eq!(join("ab", "cd"), "abcd");
    assert_eq!(join("", "x"), "x");
    assert_eq!(join("x", ""), "x");
}

#[test]
fn plain_error_is_its_description() {
    let error = FennecError::new("Window does not exist");
    assert_eq!(error.kind(), ErrorKind::General);
    assert_eq!(error.description(), "Window does not exist");
    assert!(error.cause().is_none());
    assert_eq!(error.message(), "Window does not exist");
}

#[test]
fn error_with_kind_keeps_the_kind() {
    let error = FennecError::with_kind(ErrorKind::NotFound, "gone");
    assert_eq!(error.kind(), ErrorKind::NotFound);
    assert_eq!(error.message(), "gone");
}

#[test]
fn wrapped_status_is_an_api_failure() {
    let error = FennecError::from_status(-3);
    assert_eq!(error.kind(), ErrorKind::ApiCall);
    assert_eq!(error.description(), "Vulkan error occurred");
    assert!(matches!(error.cause(), Some(Cause::Status(-3))));
    assert_eq!(error.message(), "Vulkan error occurred: Initialization of a object has failed");
}

#[test]
fn wrapped_message_is_a_general_failure() {
    let error = FennecError::from_error("IO error occurred", Cause::Message(String::from("disk full")));
    assert_eq!(error.kind(), ErrorKind::General);
    assert_eq!(error.message(), "IO error occurred: disk full");
    match error.cause() {
        Some(Cause::Message(text)) => assert_eq!(text, "disk full"),
        other => panic!("not a message: {:?}", other),
    }
}

#[test]
fn error_without_description_renders_as_nothing() {
    let error = FennecError::from_error("", Cause::Status(5));
    assert_eq!(error.message(), "");
}

#[test]
fn borrow_conflict_has_its_own_kind() {
    let error = FennecError::borrow_conflict();
    assert_eq!(error.kind(), ErrorKind::BorrowConflict);
    assert_eq!(error.description(), "Could not borrow from cell");
    assert_eq!(error.message(), "Could not borrow from cell: already mutably borrowed");
    let exclusive = FennecError::borrow_mut_conflict();
    assert_eq!(exclusive.kind(), ErrorKind::BorrowConflict);
    assert_eq!(exclusive.message(), "Could not borrow mutibly from cell: already borrowed");
}

#[test]
fn cause_renders_status_and_message() {
    assert_eq!(Cause::Status(0).render(), "Command completed successfully");
    assert_eq!(Cause::Status(12345).render(), "12345");
    assert_eq!(Cause::Message(String::from("x")).render(), "x");
}

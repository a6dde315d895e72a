use my_zero2prod::store::StoreError;
use my_zero2prod::subscriptions::{
    error_chain_fmt, MailError, StoreTokenError, SubscribeError,
};

#[test]
fn validation_errors_map_to_400() {
    let e = SubscribeError::ValidationError("not a valid subscriber email".to_string());
    assert_eq!(e.status_code(), 400);
}

#[test]
fn database_errors_map_to_500() {
    let e = SubscribeError::DatabaseError(StoreError::StoreUnavailable);
    assert_eq!(e.status_code(), 500);
}

#[test]
fn store_token_errors_map_to_500() {
    let e = SubscribeError::StoreTokenError(StoreTokenError(StoreError::ConstraintViolation));
    assert_eq!(e.status_code(), 500);
}

#[test]
fn send_email_errors_map_to_500() {
    let e = SubscribeError::SendEmailError(MailError { message: "relay down".to_string() });
    assert_eq!(e.status_code(), 500);
}

#[test]
fn validation_error_chain_has_no_cause() {
    let e = SubscribeError::ValidationError("bad input".to_string());
    assert_eq!(error_chain_fmt(&e), "invalid subscriber input: bad input\n\n");
}

#[test]
fn store_token_error_chain_lists_both_causes() {
    let e = SubscribeError::StoreTokenError(StoreTokenError(StoreError::ConstraintViolation));
    let rendered = error_chain_fmt(&e);
    assert_eq!(
        rendered,
        "failed to store the confirmation token for a new subscriber\n\n\
         Caused by: \n\
         \ta database error was encountered while trying to store a subscription token\n\
         Caused by: \n\
         \ta database constraint was violated\n"
    );
}

#[test]
fn database_error_chain_lists_the_store_cause() {
    let e = SubscribeError::DatabaseError(StoreError::StoreUnavailable);
    let rendered = error_chain_fmt(&e);
    assert_eq!(
        rendered,
        "a database error was encountered\n\n\
         Caused by: \n\
         \tthe subscriber store could not be reached\n"
    );
}

#[test]
fn send_email_error_chain_preserves_the_cause_text() {
    let e = SubscribeError::SendEmailError(MailError { message: "relay down".to_string() });
    let rendered = error_chain_fmt(&e);
    assert_eq!(
        rendered,
        "failed to send a confirmation email\n\nCaused by: \n\trelay down\n"
    );
}

#[test]
fn store_error_messages_name_each_failure() {
    assert_eq!(StoreError::ConstraintViolation.message(), "a database constraint was violated");
    assert_eq!(StoreError::StoreUnavailable.message(), "the subscriber store could not be reached");
    assert_eq!(StoreError::NotFound.message(), "no subscriber with the given id exists");
}

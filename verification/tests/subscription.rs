use my_zero2prod::store::{Store, SubscriberStatus};
use my_zero2prod::subscriptions::{
    complete_subscription, confirmation_link, subscribe, subscribe_response_status,
    subscribe_with, FormData, SubscribeError,
};

const BASE_URL: &str = "https://newsletter.example.com";

fn le_guin_form() -> FormData {
    FormData {
        email: "ursula_le_guin@gmail.com".to_string(),
        name: "le guin".to_string(),
    }
}

#[test]
fn subscribe_with_valid_data_returns_200_and_writes_one_pending_row() {
    let mut store = Store::new();
    let outcome = subscribe(&mut store, le_guin_form(), BASE_URL);
    let email = outcome.expect("a valid, fresh subscription must be accepted");

    let status = subscribe_response_status(&complete_subscription(Ok(())));
    assert_eq!(status, 200);

    assert_eq!(store.subscriber_count(), 1);
    assert_eq!(store.token_count(), 1);
    let saved = store
        .find_subscriber_by_email("ursula_le_guin@gmail.com")
        .expect("the subscriber row must exist");
    assert_eq!(saved.email, "ursula_le_guin@gmail.com");
    assert_eq!(saved.name, "le guin");
    assert_eq!(saved.status, SubscriberStatus::PendingConfirmation);
    assert_eq!(saved.status.as_str(), "pending_confirmation");

    // The dispatched mail goes to the subscriber and carries the link built
    // around the minted token.
    assert_eq!(email.recipient, "ursula_le_guin@gmail.com");
    assert_eq!(email.subject, "Welcome!");
    let token = store.token_at(0).token.clone();
    let link = confirmation_link(BASE_URL, &token);
    assert!(email.text_body.ends_with(&link));
    assert!(email.html_body.contains(&link));
}

#[test]
fn subscribe_with_empty_email_returns_400_and_writes_nothing() {
    let mut store = Store::new();
    let form = FormData { email: "".to_string(), name: "abc".to_string() };
    let outcome = subscribe(&mut store, form, BASE_URL);
    let err = outcome.err().expect("an empty email must be rejected");
    assert!(matches!(err, SubscribeError::ValidationError(_)));
    assert_eq!(err.status_code(), 400);
    assert_eq!(store.subscriber_count(), 0);
    assert_eq!(store.token_count(), 0);
}

#[test]
fn subscribe_with_empty_name_returns_400_and_writes_nothing() {
    let mut store = Store::new();
    let form = FormData { email: "123@gmail.com".to_string(), name: "".to_string() };
    let outcome = subscribe(&mut store, form, BASE_URL);
    let err = outcome.err().expect("an empty name must be rejected");
    assert_eq!(err.status_code(), 400);
    assert_eq!(store.subscriber_count(), 0);
}

#[test]
fn subscribe_with_invalid_email_returns_400_and_writes_nothing() {
    let mut store = Store::new();
    let form = FormData { email: "123".to_string(), name: "abc".to_string() };
    let outcome = subscribe(&mut store, form, BASE_URL);
    let err = outcome.err().expect("an email without an @ must be rejected");
    assert_eq!(err.status_code(), 400);
    assert_eq!(store.subscriber_count(), 0);
}

#[test]
fn subscribing_twice_with_the_same_email_fails_the_second_time() {
    let mut store = Store::new();
    assert!(subscribe(&mut store, le_guin_form(), BASE_URL).is_ok());
    assert_eq!(store.subscriber_count(), 1);

    let second = subscribe(&mut store, le_guin_form(), BASE_URL);
    let err = second.err().expect("a duplicate email must be rejected");
    match &err {
        SubscribeError::StoreTokenError(st) => {
            assert_eq!(st.0, my_zero2prod::store::StoreError::ConstraintViolation);
        },
        _ => panic!("a duplicate email must surface as a store-token error"),
    }
    assert_eq!(err.status_code(), 500);
    assert_eq!(store.subscriber_count(), 1);
    assert_eq!(store.token_count(), 1);
}

#[test]
fn deterministic_subscription_writes_exactly_the_given_rows() {
    let mut store = Store::new();
    let outcome = subscribe_with(
        &mut store,
        le_guin_form(),
        7,
        1_700_000_000_000,
        "AAAAAAAAAAAAAAAAAAAAAAAAA",
        BASE_URL,
    );
    assert!(outcome.is_ok());
    assert_eq!(store.subscriber_count(), 1);
    let row = store.subscriber_at(0);
    assert_eq!(row.id, 7);
    assert_eq!(row.subscribed_at, 1_700_000_000_000);
    assert_eq!(row.email, "ursula_le_guin@gmail.com");
    assert_eq!(row.status, SubscriberStatus::PendingConfirmation);
    let tok = store.token_at(0);
    assert_eq!(tok.token, "AAAAAAAAAAAAAAAAAAAAAAAAA");
    assert_eq!(tok.subscriber_id, 7);
}

#[test]
fn token_collision_rolls_the_whole_transaction_back() {
    let mut store = Store::new();
    let first = subscribe_with(
        &mut store,
        le_guin_form(),
        1,
        1_700_000_000_000,
        "AAAAAAAAAAAAAAAAAAAAAAAAA",
        BASE_URL,
    );
    assert!(first.is_ok());

    // The second subscription is valid and fresh, but its minted token is
    // forced to collide: storing the token fails after the subscriber row
    // was already staged, and nothing of the transaction survives.
    let form = FormData { email: "other@example.com".to_string(), name: "other".to_string() };
    let second = subscribe_with(
        &mut store,
        form,
        2,
        1_700_000_000_001,
        "AAAAAAAAAAAAAAAAAAAAAAAAA",
        BASE_URL,
    );
    let err = second.err().expect("the forced token fault must fail the request");
    assert_eq!(err.status_code(), 500);
    assert_eq!(store.subscriber_count(), 1);
    assert_eq!(store.token_count(), 1);
    assert!(store.find_subscriber_by_email("other@example.com").is_none());
}

#[test]
fn mail_failure_surfaces_after_the_rows_are_committed() {
    let mut store = Store::new();
    assert!(subscribe(&mut store, le_guin_form(), BASE_URL).is_ok());

    let mail_error = my_zero2prod::subscriptions::MailError {
        message: "connection refused".to_string(),
    };
    let outcome = complete_subscription(Err(mail_error));
    let err = outcome.err().expect("a mail failure must surface");
    assert!(matches!(err, SubscribeError::SendEmailError(_)));
    assert_eq!(subscribe_response_status(&Err(err)), 500);
    // The committed rows stay: the workflow never rolls them back.
    assert_eq!(store.subscriber_count(), 1);
    assert_eq!(store.token_count(), 1);
}

use my_zero2prod::domain::{NewSubscriber, SubscriberEmail, SubscriberName};
use my_zero2prod::subscriptions::FormData;

#[test]
fn empty_string_is_rejected() {
    let email = "".to_string();
    assert!(SubscriberEmail::parse(email).is_err());
}

#[test]
fn email_missing_at_symbol_is_rejected() {
    let email = "ursula.com".to_string();
    assert!(SubscriberEmail::parse(email).is_err());
}

#[test]
fn email_missing_subject_is_rejected() {
    let email = "@ursula.com".to_string();
    assert!(SubscriberEmail::parse(email).is_err());
}

#[test]
fn email_missing_domain_is_rejected() {
    let email = "ursula@".to_string();
    assert!(SubscriberEmail::parse(email).is_err());
}

#[test]
fn ordinary_email_is_accepted() {
    let email = "ursula_le_guin@gmail.com".to_string();
    let parsed = SubscriberEmail::parse(email).unwrap();
    assert_eq!(parsed.as_ref(), "ursula_le_guin@gmail.com");
}

#[test]
fn empty_name_is_rejected() {
    assert!(SubscriberName::parse("".to_string()).is_err());
}

#[test]
fn ordinary_name_is_accepted() {
    let parsed = SubscriberName::parse("le guin".to_string()).unwrap();
    assert_eq!(parsed.as_ref(), "le guin");
}

#[test]
fn form_with_valid_fields_converts() {
    let form = FormData { email: "a@b.com".to_string(), name: "abc".to_string() };
    let ns = NewSubscriber::try_from(form).unwrap();
    assert_eq!(ns.email.as_ref(), "a@b.com");
    assert_eq!(ns.name.as_ref(), "abc");
}

#[test]
fn form_with_invalid_email_reports_the_email() {
    let form = FormData { email: "123".to_string(), name: "abc".to_string() };
    let err = NewSubscriber::try_from(form).unwrap_err();
    assert_eq!(err, "not a valid subscriber email");
}

#[test]
fn form_with_empty_name_reports_the_name() {
    let form = FormData { email: "123@gmail.com".to_string(), name: "".to_string() };
    let err = NewSubscriber::try_from(form).unwrap_err();
    assert_eq!(err, "not a valid subscriber name");
}

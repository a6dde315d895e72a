use my_zero2prod::configuration::Environment;
use my_zero2prod::subscriptions::confirmation_link;
use my_zero2prod::token::generate_subscription_token;

#[test]
fn generated_tokens_are_25_alphanumeric_characters() {
    for _ in 0..20 {
        let token = generate_subscription_token();
        assert_eq!(token.len(), 25);
        assert!(token.chars().all(|c| c.is_ascii_alphanumeric()));
    }
}

#[test]
fn confirmation_link_embeds_base_url_and_token() {
    let link = confirmation_link("https://example.com", "AAAAAAAAAAAAAAAAAAAAAAAAA");
    assert_eq!(
        link,
        "https://example.com/subscriptions/confirm?subscription_token=AAAAAAAAAAAAAAAAAAAAAAAAA"
    );
}

#[test]
fn environment_names_round_trip() {
    let local = Environment::try_from("local".to_string()).unwrap();
    assert_eq!(local, Environment::Local);
    assert_eq!(local.as_str(), "local");

    let production = Environment::try_from("production".to_string()).unwrap();
    assert_eq!(production, Environment::Production);
    assert_eq!(production.as_str(), "production");
}

#[test]
fn unknown_environment_names_are_rejected() {
    let err = Environment::try_from("staging".to_string()).unwrap_err();
    assert_eq!(err, "staging is not a known environment: use `local` or `production`");
}

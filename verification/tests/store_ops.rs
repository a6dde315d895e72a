use my_zero2prod::domain::{SubscriberEmail, SubscriberName};
use my_zero2prod::domain::NewSubscriber;
use my_zero2prod::store::{Store, StoreError, SubscriberStatus};

fn new_subscriber(email: &str, name: &str) -> NewSubscriber {
    NewSubscriber {
        email: SubscriberEmail::parse(email.to_string()).unwrap(),
        name: SubscriberName::parse(name.to_string()).unwrap(),
    }
}

#[test]
fn staged_rows_become_visible_only_on_commit() {
    let mut store = Store::new();
    let ns = new_subscriber("a@b.com", "a");
    let mut txn = store.begin_transaction();
    let id = store.insert_subscriber_with(&mut txn, &ns, 1, 10).unwrap();
    store.store_token(&mut txn, id, "AAAAAAAAAAAAAAAAAAAAAAAAA").unwrap();
    assert_eq!(store.subscriber_count(), 0);
    assert_eq!(store.token_count(), 0);

    store.commit(txn);
    assert_eq!(store.subscriber_count(), 1);
    assert_eq!(store.token_count(), 1);
    assert_eq!(store.subscriber_at(0).id, 1);
    assert_eq!(store.token_at(0).subscriber_id, 1);
}

#[test]
fn a_dropped_transaction_has_zero_observable_effect() {
    let mut store = Store::new();
    let ns = new_subscriber("a@b.com", "a");
    {
        let mut txn = store.begin_transaction();
        let id = store.insert_subscriber_with(&mut txn, &ns, 1, 10).unwrap();
        store.store_token(&mut txn, id, "AAAAAAAAAAAAAAAAAAAAAAAAA").unwrap();
        // The transaction is never committed.
    }
    assert_eq!(store.subscriber_count(), 0);
    assert_eq!(store.token_count(), 0);
    assert!(store.confirm_subscriber(1).is_err());
}

#[test]
fn inserting_a_committed_email_again_is_a_constraint_violation() {
    let mut store = Store::new();
    let ns = new_subscriber("a@b.com", "a");
    let mut txn = store.begin_transaction();
    store.insert_subscriber_with(&mut txn, &ns, 1, 10).unwrap();
    store.commit(txn);

    let again = new_subscriber("a@b.com", "other");
    let mut txn2 = store.begin_transaction();
    let r = store.insert_subscriber_with(&mut txn2, &again, 2, 20);
    assert_eq!(r, Err(StoreError::ConstraintViolation));
}

#[test]
fn inserting_the_same_email_twice_in_one_transaction_is_rejected() {
    let store = Store::new();
    let ns = new_subscriber("a@b.com", "a");
    let mut txn = store.begin_transaction();
    store.insert_subscriber_with(&mut txn, &ns, 1, 10).unwrap();
    let r = store.insert_subscriber_with(&mut txn, &ns, 2, 20);
    assert_eq!(r, Err(StoreError::ConstraintViolation));
}

#[test]
fn storing_a_token_for_a_missing_subscriber_is_rejected() {
    let store = Store::new();
    let mut txn = store.begin_transaction();
    let r = store.store_token(&mut txn, 99, "AAAAAAAAAAAAAAAAAAAAAAAAA");
    assert_eq!(r, Err(StoreError::ConstraintViolation));
}

#[test]
fn storing_a_duplicate_token_is_rejected() {
    let mut store = Store::new();
    let ns = new_subscriber("a@b.com", "a");
    let mut txn = store.begin_transaction();
    store.insert_subscriber_with(&mut txn, &ns, 1, 10).unwrap();
    store.store_token(&mut txn, 1, "AAAAAAAAAAAAAAAAAAAAAAAAA").unwrap();
    store.commit(txn);

    let other = new_subscriber("b@c.com", "b");
    let mut txn2 = store.begin_transaction();
    store.insert_subscriber_with(&mut txn2, &other, 2, 20).unwrap();
    let r = store.store_token(&mut txn2, 2, "AAAAAAAAAAAAAAAAAAAAAAAAA");
    assert_eq!(r, Err(StoreError::ConstraintViolation));
}

#[test]
fn insert_subscriber_draws_its_own_id_and_timestamp() {
    let mut store = Store::new();
    let ns = new_subscriber("a@b.com", "a");
    let mut txn = store.begin_transaction();
    let id = store.insert_subscriber(&mut txn, &ns).unwrap();
    store.commit(txn);
    assert_eq!(store.subscriber_count(), 1);
    assert_eq!(store.subscriber_at(0).id, id);
    assert_eq!(store.subscriber_at(0).status, SubscriberStatus::PendingConfirmation);
}

#[test]
fn token_lookup_answers_the_owning_subscriber() {
    let mut store = Store::new();
    let ns = new_subscriber("a@b.com", "a");
    let mut txn = store.begin_transaction();
    store.insert_subscriber_with(&mut txn, &ns, 5, 10).unwrap();
    store.store_token(&mut txn, 5, "AAAAAAAAAAAAAAAAAAAAAAAAA").unwrap();
    store.commit(txn);

    assert_eq!(store.get_subscriber_id_from_token("AAAAAAAAAAAAAAAAAAAAAAAAA"), Some(5));
    assert_eq!(store.get_subscriber_id_from_token("BBBBBBBBBBBBBBBBBBBBBBBBB"), None);
}

#[test]
fn confirming_a_missing_subscriber_is_not_found() {
    let mut store = Store::new();
    assert_eq!(store.confirm_subscriber(1), Err(StoreError::NotFound));
}

#[test]
fn confirming_flips_exactly_the_addressed_subscriber() {
    let mut store = Store::new();
    let a = new_subscriber("a@b.com", "a");
    let b = new_subscriber("b@c.com", "b");
    let mut txn = store.begin_transaction();
    store.insert_subscriber_with(&mut txn, &a, 1, 10).unwrap();
    store.insert_subscriber_with(&mut txn, &b, 2, 20).unwrap();
    store.commit(txn);

    assert!(store.confirm_subscriber(2).is_ok());
    assert_eq!(store.subscriber_at(0).status, SubscriberStatus::PendingConfirmation);
    assert_eq!(store.subscriber_at(1).status, SubscriberStatus::Confirmed);
}

//! The subscriber lifecycle over the store: creation, duplicates,
//! activation, listing, and the full signup-to-confirmation scenario.

use email_api::models::AccountRequest;
use email_api::routes::{
    activate_account, confirm_status, create, create_status, finish_create, list_accounts,
    list_status, LifecycleError,
};
use email_api::email::SendError;
use email_api::store::{StoreError, SubscriberStore};
use email_api::token::token_string;

fn request(email: &str, name: &str) -> AccountRequest {
    AccountRequest { email: email.to_string(), name: name.to_string() }
}

#[test]
fn create_persists_an_unconfirmed_subscriber() {
    let mut store = SubscriberStore::new();
    let row = create(&request("a@b.com", "Alice"), &mut store).unwrap();
    assert_eq!(row.email, "a@b.com");
    assert_eq!(row.name, "Alice");
    assert!(!row.status);
}

#[test]
fn created_subscriber_has_token_distinct_from_id_and_non_empty() {
    let mut store = SubscriberStore::new();
    let row = create(&request("a@b.com", "Alice"), &mut store).unwrap();
    assert_ne!(row.auth_token, row.id);
    let text = token_string(row.auth_token);
    assert_eq!(text.len(), 36);
    assert!(!text.is_empty());
    // The canonical rendering really depends on the value: two tokens,
    // two texts.
    assert_ne!(token_string(row.id), text);
}

#[test]
fn second_signup_with_same_email_is_a_duplicate() {
    let mut store = SubscriberStore::new();
    let first = create(&request("a@b.com", "Alice"), &mut store);
    assert!(first.is_ok());
    let second = create(&request("a@b.com", "Another Alice"), &mut store);
    assert_eq!(second.unwrap_err(), LifecycleError::DuplicateSubscriber);
    // Exactly one row made it in.
    let listed = list_accounts(&store).unwrap();
    assert_eq!(listed.results.len(), 1);
}

#[test]
fn invalid_signup_has_no_side_effect() {
    let mut store = SubscriberStore::new();
    let r = create(&request("not-an-email", "Alice"), &mut store);
    assert_eq!(r.unwrap_err(), LifecycleError::Validation);
    let r = create(&request("a@b.com", "Alice{}"), &mut store);
    assert_eq!(r.unwrap_err(), LifecycleError::Validation);
    assert_eq!(list_accounts(&store).unwrap().results.len(), 0);
}

#[test]
fn activation_confirms_once_and_only_once() {
    let mut store = SubscriberStore::new();
    let row = create(&request("a@b.com", "Alice"), &mut store).unwrap();
    let token_text = token_string(row.auth_token);

    let first = activate_account(&token_text, &mut store).unwrap();
    assert_eq!(first.message, "Confirmed email account! a@b.com");

    let second = activate_account(&token_text, &mut store);
    assert_eq!(second.unwrap_err(), LifecycleError::ConfirmationFailed);
}

#[test]
fn activation_with_unknown_token_fails() {
    let mut store = SubscriberStore::new();
    create(&request("a@b.com", "Alice"), &mut store).unwrap();
    let unknown = token_string(12345678901234567890);
    let r = activate_account(&unknown, &mut store);
    assert_eq!(r.unwrap_err(), LifecycleError::ConfirmationFailed);
}

#[test]
fn activation_with_malformed_token_is_a_validation_failure() {
    let mut store = SubscriberStore::new();
    let r = activate_account("not-a-uuid", &mut store);
    assert_eq!(r.unwrap_err(), LifecycleError::Validation);
    let r = activate_account("", &mut store);
    assert_eq!(r.unwrap_err(), LifecycleError::Validation);
}

#[test]
fn listing_an_empty_store_is_an_empty_list_not_an_error() {
    let store = SubscriberStore::new();
    let listed = list_accounts(&store).unwrap();
    assert!(listed.results.is_empty());
}

#[test]
fn listing_an_unavailable_store_is_an_error_not_an_empty_list() {
    let mut store = SubscriberStore::new();
    create(&request("a@b.com", "Alice"), &mut store).unwrap();
    store.set_available(false);
    let r = list_accounts(&store);
    assert_eq!(r.unwrap_err(), StoreError::Unavailable);
    store.set_available(true);
    assert_eq!(list_accounts(&store).unwrap().results.len(), 1);
}

#[test]
fn unavailable_store_fails_creation_and_activation() {
    let mut store = SubscriberStore::new();
    let row = create(&request("a@b.com", "Alice"), &mut store).unwrap();
    store.set_available(false);
    let r = create(&request("c@d.com", "Carol"), &mut store);
    assert_eq!(r.unwrap_err(), LifecycleError::StoreUnavailable);
    let r = activate_account(&token_string(row.auth_token), &mut store);
    assert_eq!(r.unwrap_err(), LifecycleError::StoreUnavailable);
}

#[test]
fn failed_notification_surfaces_send_error_and_row_stays() {
    let mut store = SubscriberStore::new();
    let row = create(&request("a@b.com", "Alice"), &mut store).unwrap();
    let r = finish_create(row, Err(SendError));
    assert_eq!(r.unwrap_err(), LifecycleError::Send);
    // The row is still persisted and still unconfirmed.
    let listed = list_accounts(&store).unwrap();
    assert_eq!(listed.results.len(), 1);
    assert!(!listed.results[0].status);
}

#[test]
fn signup_confirm_and_duplicate_scenario() {
    let mut store = SubscriberStore::new();

    // POST /subscriptions {"email":"a@b.com","name":"Alice"} -> 201.
    let posted = create(&request("a@b.com", "Alice"), &mut store);
    let row = match &posted {
        Ok(r) => r.clone(),
        Err(e) => panic!("signup failed: {:?}", e),
    };
    let sent = finish_create(row.clone(), Ok(()));
    assert_eq!(create_status(&sent), 201);

    // The subscriber is listed, unconfirmed, without its token.
    let listed = list_accounts(&store);
    assert_eq!(list_status(&listed), 200);
    let listed = listed.unwrap();
    assert_eq!(listed.results.len(), 1);
    assert_eq!(listed.results[0].email, "a@b.com");
    assert_eq!(listed.results[0].name, "Alice");
    assert_eq!(listed.results[0].id, token_string(row.id));
    assert!(!listed.results[0].status);

    // GET /confirm/{token} -> 200.
    let confirmed = activate_account(&token_string(row.auth_token), &mut store);
    assert_eq!(confirm_status(&confirmed), 200);

    // Afterwards the listing shows the subscriber confirmed.
    let listed = list_accounts(&store).unwrap();
    assert_eq!(listed.results.len(), 1);
    assert!(listed.results[0].status);

    // The same POST again is a duplicate, not a second creation.
    let again = create(&request("a@b.com", "Alice"), &mut store);
    assert_eq!(create_status(&again), 409);
    assert_eq!(list_accounts(&store).unwrap().results.len(), 1);
}

#[test]
fn store_insert_reports_identifier_collisions() {
    let mut store = SubscriberStore::new();
    let account = request("a@b.com", "Alice").to_parsed_account().unwrap();
    let row = store.insert(&account, 1, 2, 0).unwrap();
    assert_eq!(row.id, 1);
    assert_eq!(row.auth_token, 2);
    assert_eq!(row.subscribed_at, 0);

    let other = request("c@d.com", "Carol").to_parsed_account().unwrap();
    // A token equal to the row id it comes with is refused.
    assert_eq!(store.insert(&other, 7, 7, 0).unwrap_err(), StoreError::UniqueConstraintViolation);
    // A colliding row id is refused.
    assert_eq!(store.insert(&other, 1, 9, 0).unwrap_err(), StoreError::UniqueConstraintViolation);
    // A colliding token is refused.
    assert_eq!(store.insert(&other, 8, 2, 0).unwrap_err(), StoreError::UniqueConstraintViolation);
    // Fresh identifiers are accepted.
    assert!(store.insert(&other, 8, 9, 0).is_ok());
}

#[test]
fn store_activation_not_found_for_unknown_token() {
    let mut store = SubscriberStore::new();
    let account = request("a@b.com", "Alice").to_parsed_account().unwrap();
    store.insert(&account, 1, 2, 5).unwrap();
    assert_eq!(store.activate_by_token(99).unwrap_err(), StoreError::NotFound);
    let confirmed = store.activate_by_token(2).unwrap();
    assert!(confirmed.status);
    assert_eq!(confirmed.subscribed_at, 5);
    assert_eq!(store.activate_by_token(2).unwrap_err(), StoreError::NotFound);
}

#[test]
fn status_codes_follow_the_http_interface() {
    let mut store = SubscriberStore::new();
    let row = create(&request("a@b.com", "Alice"), &mut store).unwrap();

    assert_eq!(create_status(&Ok(row.clone())), 201);
    assert_eq!(create_status(&Err(LifecycleError::Validation)), 400);
    assert_eq!(create_status(&Err(LifecycleError::DuplicateSubscriber)), 409);
    assert_eq!(create_status(&Err(LifecycleError::StoreUnavailable)), 500);
    assert_eq!(create_status(&Err(LifecycleError::Send)), 500);

    assert_eq!(list_status(&list_accounts(&store)), 200);
    store.set_available(false);
    assert_eq!(list_status(&list_accounts(&store)), 500);
    store.set_available(true);

    let confirmed = activate_account(&token_string(row.auth_token), &mut store);
    assert_eq!(confirm_status(&confirmed), 200);
    let spent = activate_account(&token_string(row.auth_token), &mut store);
    assert_eq!(confirm_status(&spent), 400);
    let malformed = activate_account("zzz", &mut store);
    assert_eq!(confirm_status(&malformed), 400);
}

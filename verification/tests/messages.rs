//! The confirmation message and header lines, checked against exact
//! expected text.

use email_api::domain::SanitizedName;
use email_api::email::{confirmation_message, mailbox_text};
use email_api::models::{AccountRequest, Response};
use email_api::store::SubscriberStore;
use email_api::token::token_string;

#[test]
fn confirmation_message_embeds_the_link_exactly() {
    let name = SanitizedName::parse("Alice".to_string()).unwrap();
    let message = confirmation_message(&name, "https://example.org", 7);
    let token_text = token_string(7);
    assert_eq!(
        message,
        format!(
            "Hello Alice,\nClick here to confirm your account\n\n https://example.org/confirm/{}",
            token_text
        )
    );
    assert_eq!(token_text, "00000000-0000-0000-0000-000000000007");
}

#[test]
fn mailbox_text_is_display_then_bracketed_address() {
    assert_eq!(mailbox_text("Alice", "a@b.com"), "Alice <a@b.com>");
}

#[test]
fn empty_response_envelope_has_no_results() {
    let r: Response<u32> = Response::new();
    assert!(r.results.is_empty());
}

#[test]
fn api_account_carries_row_fields_and_text_id() {
    let mut store = SubscriberStore::new();
    let account =
        AccountRequest { email: "a@b.com".to_string(), name: "Alice".to_string() }
            .to_parsed_account()
            .unwrap();
    let row = store.insert(&account, 3, 4, 99).unwrap();
    let api = row.to_account();
    assert_eq!(api.id, "00000000-0000-0000-0000-000000000003");
    assert_eq!(api.subscribed_at, 99);
    assert_eq!(api.email, "a@b.com");
    assert_eq!(api.name, "Alice");
    assert!(!api.status);
}

#[test]
fn parsed_account_builds_the_row_from_its_parts() {
    let account =
        AccountRequest { email: "a@b.com".to_string(), name: "Alice".to_string() }
            .to_parsed_account()
            .unwrap();
    let row = account.to_account_db(10, 11, 12);
    assert_eq!(row.id, 10);
    assert_eq!(row.auth_token, 11);
    assert_eq!(row.subscribed_at, 12);
    assert_eq!(row.email, "a@b.com");
    assert_eq!(row.name, "Alice");
    assert!(!row.status);
}

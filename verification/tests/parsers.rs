//! The value parsers: every rejection condition, and the exact
//! round-trip of accepted input.

use email_api::domain::{SanitizedEmail, SanitizedName};

#[test]
fn name_rejects_every_forbidden_character() {
    for c in ['/', '(', ')', '"', '<', '>', '\\', '{', '}'] {
        let raw = format!("Al{}ce", c);
        assert!(SanitizedName::parse(raw.clone()).is_err(), "accepted {:?}", raw);
        let raw_email = format!("al{}ce@example.com", c);
        assert!(SanitizedEmail::parse(raw_email.clone()).is_err(), "accepted {:?}", raw_email);
    }
}

#[test]
fn name_rejects_empty_input() {
    assert!(SanitizedName::parse(String::new()).is_err());
    assert!(SanitizedEmail::parse(String::new()).is_err());
}

#[test]
fn name_rejects_whitespace_only_input() {
    for raw in [" ", "   ", " \t\r\n ", "\u{00A0}\u{2003}", "\u{3000}"] {
        assert!(SanitizedName::parse(raw.to_string()).is_err(), "accepted {:?}", raw);
        assert!(SanitizedEmail::parse(raw.to_string()).is_err(), "accepted {:?}", raw);
    }
}

#[test]
fn name_rejects_overlong_input() {
    let long = "a".repeat(257);
    assert!(SanitizedName::parse(long.clone()).is_err());
    assert!(SanitizedEmail::parse(long).is_err());
    let longest_allowed = "a".repeat(256);
    assert!(SanitizedName::parse(longest_allowed).is_ok());
}

#[test]
fn name_accepts_ordinary_input_unchanged() {
    let n = SanitizedName::parse("Ursula K. Le Guin".to_string()).unwrap();
    assert_eq!(n.as_str(), "Ursula K. Le Guin");
}

#[test]
fn email_rejects_bad_syntax() {
    for raw in ["abc", "a@", "@b.com", "a b@c.com", "a@b@c", "a@-b.com"] {
        assert!(SanitizedEmail::parse(raw.to_string()).is_err(), "accepted {:?}", raw);
    }
}

#[test]
fn email_rejects_overlong_address() {
    let raw = format!("{}@example.com", "a".repeat(250));
    assert!(SanitizedEmail::parse(raw).is_err());
}

#[test]
fn email_accepts_valid_address_and_round_trips_exactly() {
    for raw in ["a@b.com", "ursula_le_guin@gmail.com", "x.y-z@sub.example.org"] {
        let e = SanitizedEmail::parse(raw.to_string()).unwrap();
        assert_eq!(e.as_str(), raw);
    }
}

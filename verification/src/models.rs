//! The record types of the subscriber lifecycle: the persisted row, the
//! API representation (which never carries the activation token), the
//! raw signup request, and the list-response envelope.

use vstd::prelude::*;

use crate::domain::{valid_email, valid_name, ParseError, ParsedAccount, SanitizedEmail,
    SanitizedName};
use crate::token::uuid_text;

verus! {

/// The envelope of a list response: the rows found, possibly none.
#[derive(Debug)]
pub struct Response<T> {
    pub results: Vec<T>,
}

impl<T> Response<T> {
    /// An empty envelope.
    pub fn new() -> (r: Self)
        ensures
            r.results@.len() == 0,
    {
        Self { results: Vec::new() }
    }
}

pub type Accounts = Response<Account>;

/// A subscriber as callers see it: the row id in its canonical text
/// form, and no activation token on any response surface.
#[derive(Debug)]
pub struct Account {
    pub id: String,
    pub subscribed_at: i64,
    pub email: String,
    pub name: String,
    pub status: bool,
}

impl Account {
    /// Whether this representation is the faithful image of a persisted
    /// row: every field carried over, the id rendered as text, and the
    /// token absent by construction.
    pub open spec fn reflects(&self, row: AccountDB) -> bool {
        &&& self.id@ == uuid_text(row.id)
        &&& self.subscribed_at == row.subscribed_at
        &&& self.email@ == row.email@
        &&& self.name@ == row.name@
        &&& self.status == row.status
    }

    pub fn new(id: String, subscribed_at: i64, email: String, name: String, status: bool) -> (a:
        Account)
        ensures
            a.id == id,
            a.subscribed_at == subscribed_at,
            a.email == email,
            a.name == name,
            a.status == status,
    {
        Self { id, subscribed_at, email, name, status }
    }
}

/// A persisted subscriber row: identity, creation time, the sanitized
/// fields, the confirmation status, and the single-use activation
/// token.
#[derive(Debug)]
pub struct AccountDB {
    pub id: u128,
    pub subscribed_at: i64,
    pub email: String,
    pub name: String,
    pub status: bool,
    pub auth_token: u128,
}

impl AccountDB {
    /// The API representation of this row: all fields carried over, the
    /// id rendered as text, the activation token dropped.
    pub fn to_account(&self) -> (a: Account)
        ensures
            a.reflects(*self),
    {
        Account::new(
            crate::token::token_string(self.id),
            self.subscribed_at,
            self.email.clone(),
            self.name.clone(),
            self.status,
        )
    }
}

impl Clone for AccountDB {
    fn clone(&self) -> (r: Self)
        ensures
            r == *self,
    {
        AccountDB {
            id: self.id,
            subscribed_at: self.subscribed_at,
            email: self.email.clone(),
            name: self.name.clone(),
            status: self.status,
            auth_token: self.auth_token,
        }
    }
}

/// A raw signup request, exactly as it came in: nothing about it is
/// validated yet.
#[derive(Debug)]
pub struct AccountRequest {
    pub email: String,
    pub name: String,
}

impl AccountRequest {
    /// Validates both fields; fails fast on the first rejection, with
    /// no other effect.
    pub fn to_parsed_account(&self) -> (r: Result<ParsedAccount, ParseError>)
        ensures
            r is Ok <==> (valid_name(self.name@) && valid_email(self.email@)),
            r matches Ok(p) ==> p.name@ == self.name@ && p.email@ == self.email@,
    {
        let san_name = match SanitizedName::parse(self.name.clone()) {
            Ok(n) => n,
            Err(e) => {
                return Err(e);
            },
        };
        let san_email = match SanitizedEmail::parse(self.email.clone()) {
            Ok(m) => m,
            Err(e) => {
                return Err(e);
            },
        };
        Ok(ParsedAccount { name: san_name, email: san_email })
    }
}

} // verus!

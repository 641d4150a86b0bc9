//! Validated value types for the two identity fields of a signup.
//!
//! Raw strings from a request become a `SanitizedName` or a
//! `SanitizedEmail` only through `parse`, which rejects anything empty
//! or whitespace-only, anything longer than 256 characters, anything
//! holding a character that could break out of an HTML, JSON or SQL
//! context, and (for emails) anything that is not a syntactically valid
//! address. A value of either type carries its validity as a type
//! invariant for its whole lifetime.

use vstd::prelude::*;

use crate::models::AccountDB;

verus! {

/// A character never accepted in a name or an email address.
pub open spec fn forbidden_char(c: char) -> bool {
    c == '/' || c == '(' || c == ')' || c == '"' || c == '<' || c == '>' || c == '\\' || c == '{'
        || c == '}'
}

/// Whether some character of `s` is forbidden.
pub open spec fn contains_forbidden(s: Seq<char>) -> bool {
    exists|i: int| 0 <= i < s.len() && forbidden_char(s[i])
}

/// The Unicode `White_Space` characters, the ones a trimming pass
/// would strip.
pub open spec fn whitespace_char(c: char) -> bool {
    c == ' ' || c == '\t' || c == '\n' || c == '\u{000B}' || c == '\u{000C}' || c == '\r'
        || c == '\u{0085}' || c == '\u{00A0}' || c == '\u{1680}' || (0x2000 <= c as u32 && c
        as u32 <= 0x200A) || c == '\u{2028}' || c == '\u{2029}' || c == '\u{202F}'
        || c == '\u{205F}' || c == '\u{3000}'
}

/// Empty, or made of whitespace alone.
pub open spec fn blank(s: Seq<char>) -> bool {
    forall|i: int| 0 <= i < s.len() ==> whitespace_char(s[i])
}

/// What both parsers demand of their input: not blank, at most 256
/// characters, no forbidden character.
pub open spec fn valid_name(s: Seq<char>) -> bool {
    &&& !blank(s)
    &&& s.len() <= 256
    &&& !contains_forbidden(s)
}

/// Whether `s` is a syntactically valid email address. Left
/// uninterpreted: the grammar is the `validator` crate's.
pub uninterp spec fn email_syntax_ok(s: Seq<char>) -> bool;

/// What `SanitizedEmail::parse` demands: a valid input string that is
/// also a syntactically valid address.
pub open spec fn valid_email(s: Seq<char>) -> bool {
    valid_name(s) && email_syntax_ok(s)
}

/// The rejection of a raw input string. It carries nothing: rejection
/// is rejection, and mapping it to a response is the caller's job.
#[derive(Debug, PartialEq, Eq, Structural)]
pub struct ParseError;

fn is_forbidden_char(c: char) -> (b: bool)
    ensures
        b == forbidden_char(c),
{
    c == '/' || c == '(' || c == ')' || c == '"' || c == '<' || c == '>' || c == '\\' || c == '{'
        || c == '}'
}

fn is_whitespace_char(c: char) -> (b: bool)
    ensures
        b == whitespace_char(c),
{
    let u: u32 = c as u32;
    u == 0x20 || u == 0x09 || u == 0x0A || u == 0x0B || u == 0x0C || u == 0x0D || u == 0x85
        || u == 0xA0 || u == 0x1680 || (0x2000 <= u && u <= 0x200A) || u == 0x2028 || u == 0x2029
        || u == 0x202F || u == 0x205F || u == 0x3000
}

fn is_blank(s: &str) -> (b: bool)
    ensures
        b == blank(s@),
{
    let n = s.unicode_len();
    let mut i: usize = 0;
    while i < n
        invariant
            i <= n,
            n == s@.len(),
            forall|j: int| 0 <= j < i ==> whitespace_char(s@[j]),
        decreases n - i,
    {
        if !is_whitespace_char(s.get_char(i)) {
            assert(!whitespace_char(s@[i as int]));
            return false;
        }
        i = i + 1;
    }
    true
}

fn has_forbidden(s: &str) -> (b: bool)
    ensures
        b == contains_forbidden(s@),
{
    let n = s.unicode_len();
    let mut i: usize = 0;
    while i < n
        invariant
            i <= n,
            n == s@.len(),
            forall|j: int| 0 <= j < i ==> !forbidden_char(s@[j]),
        decreases n - i,
    {
        if is_forbidden_char(s.get_char(i)) {
            assert(forbidden_char(s@[i as int]));
            return true;
        }
        i = i + 1;
    }
    false
}

/// The checks shared by both parsers.
fn acceptable_text(s: &str) -> (b: bool)
    ensures
        b == valid_name(s@),
{
    let n = s.unicode_len();
    if n > 256 {
        return false;
    }
    if is_blank(s) {
        return false;
    }
    !has_forbidden(s)
}

/// Relies on `validator`'s `ValidateEmail` for `&str`: whether a string
/// is a syntactically valid email address (the HTML5 grammar) depends
/// on its characters alone.
#[verifier::external_body]
fn email_syntax(s: &str) -> (b: bool)
    ensures
        b == email_syntax_ok(s@),
{
    validator::ValidateEmail::validate_email(&s)
}

/// A display name that is safe to persist and to embed in a message.
pub struct SanitizedName(String);

impl View for SanitizedName {
    type V = Seq<char>;

    closed spec fn view(&self) -> Seq<char> {
        self.0@
    }
}

impl SanitizedName {
    #[verifier::type_invariant]
    spec fn type_wf(self) -> bool {
        valid_name(self.0@)
    }

    /// The one way to obtain a `SanitizedName`: succeeds exactly on
    /// valid input, and keeps the input string unchanged.
    pub fn parse(s: String) -> (r: Result<SanitizedName, ParseError>)
        ensures
            r is Ok <==> valid_name(s@),
            r matches Ok(n) ==> n@ == s@,
    {
        if acceptable_text(s.as_str()) {
            Ok(SanitizedName(s))
        } else {
            Err(ParseError)
        }
    }

    /// The underlying text, unchanged since `parse` accepted it.
    pub fn as_str(&self) -> (r: &str)
        ensures
            r@ == self@,
    {
        self.0.as_str()
    }

    /// Surfaces the type invariant: every value of this type satisfies
    /// the parser's checks.
    pub fn validity(&self)
        ensures
            valid_name(self@),
    {
        proof {
            use_type_invariant(self);
        }
    }
}

impl Clone for SanitizedName {
    fn clone(&self) -> (r: Self)
        ensures
            r@ == self@,
    {
        proof {
            use_type_invariant(self);
        }
        SanitizedName(self.0.clone())
    }
}

/// An email address that is safe to persist, to index on, and to hand
/// to a mail transport.
pub struct SanitizedEmail(String);

impl View for SanitizedEmail {
    type V = Seq<char>;

    closed spec fn view(&self) -> Seq<char> {
        self.0@
    }
}

impl SanitizedEmail {
    #[verifier::type_invariant]
    spec fn type_wf(self) -> bool {
        valid_email(self.0@)
    }

    /// The one way to obtain a `SanitizedEmail`: succeeds exactly on
    /// valid input that is a syntactically valid address, and keeps the
    /// input string unchanged.
    pub fn parse(s: String) -> (r: Result<SanitizedEmail, ParseError>)
        ensures
            r is Ok <==> valid_email(s@),
            r matches Ok(e) ==> e@ == s@,
    {
        if !acceptable_text(s.as_str()) {
            return Err(ParseError);
        }
        if !email_syntax(s.as_str()) {
            return Err(ParseError);
        }
        Ok(SanitizedEmail(s))
    }

    /// The underlying text, unchanged since `parse` accepted it.
    pub fn as_str(&self) -> (r: &str)
        ensures
            r@ == self@,
    {
        self.0.as_str()
    }

    /// Surfaces the type invariant: every value of this type satisfies
    /// the parser's checks.
    pub fn validity(&self)
        ensures
            valid_email(self@),
    {
        proof {
            use_type_invariant(self);
        }
    }
}

impl Clone for SanitizedEmail {
    fn clone(&self) -> (r: Self)
        ensures
            r@ == self@,
    {
        proof {
            use_type_invariant(self);
        }
        SanitizedEmail(self.0.clone())
    }
}

/// A validated signup payload: what one signup attempt parses to, and
/// the input to record creation.
pub struct ParsedAccount {
    pub email: SanitizedEmail,
    pub name: SanitizedName,
}

impl ParsedAccount {
    /// The subscriber row a signup becomes, given a fresh row id, a
    /// fresh activation token, and the creation time: unconfirmed, with
    /// the validated fields carried over unchanged.
    pub fn to_account_db(&self, id: u128, auth_token: u128, now: i64) -> (row: AccountDB)
        ensures
            row.id == id,
            row.auth_token == auth_token,
            row.subscribed_at == now,
            row.email@ == self.email@,
            row.name@ == self.name@,
            row.status == false,
    {
        AccountDB {
            id,
            subscribed_at: now,
            email: String::from_str(self.email.as_str()),
            name: String::from_str(self.name.as_str()),
            status: false,
            auth_token,
        }
    }
}

impl Clone for ParsedAccount {
    fn clone(&self) -> (r: Self)
        ensures
            r.email@ == self.email@,
            r.name@ == self.name@,
    {
        ParsedAccount { email: self.email.clone(), name: self.name.clone() }
    }
}

} // verus!

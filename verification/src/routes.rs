//! The lifecycle orchestrator: the create-and-notify workflow, the
//! confirm-by-token workflow, and the listing, each over the subscriber
//! store, together with the mapping of every outcome to an HTTP status.
//!
//! The workflows own the ordering and failure semantics: validation
//! fails fast with no side effect; a duplicate address is refused
//! before any notification; a failed notification leaves the row
//! persisted and unconfirmed; a malformed token never reaches the
//! store.

use vstd::prelude::*;

use crate::clock::now_timestamp;
use crate::domain::{valid_email, valid_name, ParsedAccount};
use crate::email::SendError;
use crate::models::{AccountDB, AccountRequest, Accounts};
use crate::store::{StoreError, SubscriberStore};
use crate::token::{fresh_id, parse_uuid, uuid_value};

verus! {

/// The orchestrator's error taxonomy: one distinguishable variant per
/// failure the lifecycle can surface, so callers can pattern-match
/// deterministically.
#[derive(Debug, PartialEq, Eq, Structural)]
pub enum LifecycleError {
    /// Malformed input, rejected before any side effect.
    Validation,
    /// The address is already subscribed; no email was sent.
    DuplicateSubscriber,
    /// The store could not be reached; nothing was committed.
    StoreUnavailable,
    /// The token is unknown or already spent.
    ConfirmationFailed,
    /// The notification transport failed after the row was committed:
    /// the subscriber stays persisted, unconfirmed.
    Send,
}

/// The confirmation message answered to a successfully presented
/// token.
#[derive(Debug)]
pub struct ActivateResponse {
    pub message: String,
}

/// Lists every subscriber, or reports the store unavailable. A read
/// failure is surfaced, never coerced into an empty result; an empty
/// store yields an empty list, not an error.
pub fn list_accounts(store: &SubscriberStore) -> (r: Result<Accounts, StoreError>)
    ensures
        !store.available ==> r == Err::<Accounts, StoreError>(StoreError::Unavailable),
        store.available ==> (r matches Ok(resp) && resp.results@.len() == store.rows@.len()
            && forall|i: int|
            0 <= i < store.rows@.len() ==> (#[trigger] resp.results@[i]).reflects(store.rows@[i])),
        store.available && store.rows@.len() == 0 ==> (r matches Ok(resp) && resp.results@.len()
            == 0),
{
    let rows = match store.list_all() {
        Ok(v) => v,
        Err(e) => {
            return Err(e);
        },
    };
    let mut results: Vec<crate::models::Account> = Vec::new();
    let n = rows.len();
    let mut k: usize = 0;
    while k < n
        invariant
            k <= n,
            n == rows@.len(),
            rows@ == store.rows@,
            results@.len() == k,
            forall|i: int| 0 <= i < k ==> (#[trigger] results@[i]).reflects(rows@[i]),
        decreases n - k,
    {
        results.push(rows[k].to_account());
        k = k + 1;
    }
    Ok(Accounts { results })
}

/// Creates the unconfirmed subscriber row for a validated signup,
/// drawing a fresh row id and a fresh activation token. The drawn
/// identifiers are random, so success cannot be owed outright: on a
/// reachable store with an unseen address the call succeeds unless the
/// drawn identifiers collide with persisted ones, which the store
/// reports as a constraint violation like any other.
pub fn create_account(input_account: &ParsedAccount, store: &mut SubscriberStore) -> (r: Result<
    AccountDB,
    StoreError,
>)
    requires
        old(store).wf(),
    ensures
        final(store).wf(),
        final(store).available == old(store).available,
        !old(store).available ==> r == Err::<AccountDB, StoreError>(StoreError::Unavailable)
            && final(store).rows@ == old(store).rows@,
        old(store).available && old(store).contains_email(input_account.email@) ==> r == Err::<
            AccountDB,
            StoreError,
        >(StoreError::UniqueConstraintViolation) && final(store).rows@ == old(store).rows@,
        old(store).available && !old(store).contains_email(input_account.email@) ==> (r is Ok || r
            == Err::<AccountDB, StoreError>(StoreError::UniqueConstraintViolation)),
        r is Err ==> final(store).rows@ == old(store).rows@,
        r matches Ok(row) ==> {
            &&& row.email@ == input_account.email@
            &&& row.name@ == input_account.name@
            &&& row.status == false
            &&& row.auth_token != row.id
            &&& final(store).rows@ == old(store).rows@.push(row)
            &&& final(store).contains_email(input_account.email@)
            &&& final(store).has_live_token(row.auth_token)
            &&& !old(store).contains_email(input_account.email@)
            &&& old(store).available
        },
{
    let id = fresh_id();
    let token = fresh_id();
    let now = now_timestamp();
    store.insert(input_account, id, token, now)
}

/// The create workflow up to persistence: parse both fields (failing
/// fast with no side effect), then insert the subscriber, unconfirmed,
/// with a fresh token. The notification attempt follows separately;
/// see `finish_create`.
pub fn create(req: &AccountRequest, store: &mut SubscriberStore) -> (r: Result<
    AccountDB,
    LifecycleError,
>)
    requires
        old(store).wf(),
    ensures
        final(store).wf(),
        final(store).available == old(store).available,
        r is Err ==> final(store).rows@ == old(store).rows@,
        !(valid_name(req.name@) && valid_email(req.email@)) ==> r == Err::<
            AccountDB,
            LifecycleError,
        >(LifecycleError::Validation),
        valid_name(req.name@) && valid_email(req.email@) && !old(store).available ==> r == Err::<
            AccountDB,
            LifecycleError,
        >(LifecycleError::StoreUnavailable),
        valid_name(req.name@) && valid_email(req.email@) && old(store).available && old(store).contains_email(req.email@) ==> r == Err::<AccountDB, LifecycleError>(
            LifecycleError::DuplicateSubscriber,
        ),
        valid_name(req.name@) && valid_email(req.email@) && old(store).available && !old(store).contains_email(req.email@) ==> (r is Ok || r == Err::<AccountDB, LifecycleError>(
            LifecycleError::DuplicateSubscriber,
        )),
        r matches Ok(row) ==> {
            &&& valid_name(req.name@) && valid_email(req.email@)
            &&& row.email@ == req.email@
            &&& row.name@ == req.name@
            &&& row.status == false
            &&& row.auth_token != row.id
            &&& final(store).rows@ == old(store).rows@.push(row)
            &&& final(store).contains_email(req.email@)
            &&& final(store).has_live_token(row.auth_token)
            &&& !old(store).contains_email(req.email@)
            &&& old(store).available
        },
{
    let parsed = match req.to_parsed_account() {
        Ok(p) => p,
        Err(_) => {
            return Err(LifecycleError::Validation);
        },
    };
    match create_account(&parsed, store) {
        Ok(row) => Ok(row),
        Err(StoreError::UniqueConstraintViolation) => Err(LifecycleError::DuplicateSubscriber),
        Err(StoreError::Unavailable) => Err(LifecycleError::StoreUnavailable),
        Err(StoreError::NotFound) => Err(LifecycleError::StoreUnavailable),
    }
}

/// The create workflow after the notification attempt: a reported send
/// failure is surfaced as `Send`. Nothing here touches the store — the
/// row stays persisted, unconfirmed, either way.
pub fn finish_create(created: AccountDB, sent: Result<(), SendError>) -> (r: Result<
    AccountDB,
    LifecycleError,
>)
    ensures
        sent is Ok ==> r == Ok::<AccountDB, LifecycleError>(created),
        sent is Err ==> r == Err::<AccountDB, LifecycleError>(LifecycleError::Send),
{
    match sent {
        Ok(()) => Ok(created),
        Err(SendError) => Err(LifecycleError::Send),
    }
}

/// The confirm workflow: parse the presented token (a malformed one is
/// a `Validation` failure and never reaches the store), then spend it.
/// An unknown or already-spent token is `ConfirmationFailed`; success
/// confirms the one unconfirmed row carrying it, after which the token
/// is dead: presenting it again fails.
pub fn activate_account(req_token: &str, store: &mut SubscriberStore) -> (r: Result<
    ActivateResponse,
    LifecycleError,
>)
    requires
        old(store).wf(),
    ensures
        final(store).wf(),
        final(store).available == old(store).available,
        final(store).rows@.len() == old(store).rows@.len(),
        r is Err ==> final(store).rows@ == old(store).rows@,
        uuid_value(req_token@) is None ==> r == Err::<ActivateResponse, LifecycleError>(
            LifecycleError::Validation,
        ),
        uuid_value(req_token@) is Some && !old(store).available ==> r == Err::<
            ActivateResponse,
            LifecycleError,
        >(LifecycleError::StoreUnavailable),
        uuid_value(req_token@) is Some && old(store).available && !old(store).has_live_token(
            uuid_value(req_token@)->0,
        ) ==> r == Err::<ActivateResponse, LifecycleError>(LifecycleError::ConfirmationFailed),
        uuid_value(req_token@) is Some && old(store).available && old(store).has_live_token(
            uuid_value(req_token@)->0,
        ) ==> ({
            let t = uuid_value(req_token@)->0;
            let i = old(store).live_token_row(t);
            &&& r matches Ok(resp)
            &&& resp.message@ == "Confirmed email account! "@ + old(store).rows@[i].email@
            &&& final(store).rows@[i].status
            &&& !final(store).has_live_token(t)
        }),
        forall|k: int|
            0 <= k < old(store).rows@.len() ==> ((#[trigger] old(store).rows@[k]).status ==> final(store).rows@[k].status),
{
    let token = match parse_uuid(req_token) {
        Some(t) => t,
        None => {
            return Err(LifecycleError::Validation);
        },
    };
    match store.activate_by_token(token) {
        Ok(row) => {
            let mut message = String::from_str("Confirmed email account! ");
            message.append(row.email.as_str());
            Ok(ActivateResponse { message })
        },
        Err(StoreError::Unavailable) => Err(LifecycleError::StoreUnavailable),
        Err(StoreError::NotFound) => Err(LifecycleError::ConfirmationFailed),
        Err(StoreError::UniqueConstraintViolation) => Err(LifecycleError::ConfirmationFailed),
    }
}

/// The status the listing endpoint answers with: the rows or a server
/// error, never an empty list standing in for a failure.
pub fn list_status(r: &Result<Accounts, StoreError>) -> (c: u16)
    ensures
        r is Ok ==> c == 200,
        r is Err ==> c == 500,
{
    match r {
        Ok(_) => 200,
        Err(_) => 500,
    }
}

/// The status the signup endpoint answers with: created, rejected
/// input, duplicate (distinguishable from rejection), or a server
/// error.
pub fn create_status(r: &Result<AccountDB, LifecycleError>) -> (c: u16)
    ensures
        r is Ok ==> c == 201,
        r matches Err(e) ==> {
            &&& (e == LifecycleError::Validation ==> c == 400)
            &&& (e == LifecycleError::DuplicateSubscriber ==> c == 409)
            &&& (e == LifecycleError::StoreUnavailable ==> c == 500)
            &&& (e == LifecycleError::Send ==> c == 500)
            &&& (e == LifecycleError::ConfirmationFailed ==> c == 500)
        },
{
    match r {
        Ok(_) => 201,
        Err(LifecycleError::Validation) => 400,
        Err(LifecycleError::DuplicateSubscriber) => 409,
        Err(_) => 500,
    }
}

/// The status the confirmation endpoint answers with: confirmed, a bad
/// or spent token, or a server error.
pub fn confirm_status(r: &Result<ActivateResponse, LifecycleError>) -> (c: u16)
    ensures
        r is Ok ==> c == 200,
        r matches Err(e) ==> {
            &&& (e == LifecycleError::Validation ==> c == 400)
            &&& (e == LifecycleError::ConfirmationFailed ==> c == 400)
            &&& (e == LifecycleError::StoreUnavailable ==> c == 500)
            &&& (e == LifecycleError::DuplicateSubscriber ==> c == 500)
            &&& (e == LifecycleError::Send ==> c == 500)
        },
{
    match r {
        Ok(_) => 200,
        Err(LifecycleError::Validation) => 400,
        Err(LifecycleError::ConfirmationFailed) => 400,
        Err(_) => 500,
    }
}

} // verus!

//! The subscriber store: the persisted rows, their uniqueness and
//! lifecycle invariants, and the three operations the lifecycle needs.
//!
//! `insert` admits at most one row per email address and keeps row ids
//! and activation tokens unique; `activate_by_token` performs the one
//! atomic check-and-confirm transition a token is good for; `list_all`
//! either returns every row or reports the store unavailable — a read
//! failure is never passed off as an empty result.
//!
//! Availability models the transport: every operation on an unavailable
//! store fails with `Unavailable` and changes nothing.

use vstd::prelude::*;

use crate::domain::{valid_email, valid_name, ParsedAccount};
use crate::models::AccountDB;

verus! {

/// How a store operation can fail.
#[derive(Debug, PartialEq, Eq, Structural)]
pub enum StoreError {
    /// The row would break a uniqueness invariant (an email address
    /// already subscribed, or an identifier already taken).
    UniqueConstraintViolation,
    /// The storage transport could not be reached; nothing was read or
    /// written.
    Unavailable,
    /// No unconfirmed row carries the presented token.
    NotFound,
}

/// The collection of subscriber rows, with a flag modelling whether the
/// storage transport is reachable.
pub struct SubscriberStore {
    pub rows: Vec<AccountDB>,
    pub available: bool,
}

impl SubscriberStore {
    /// The store's invariants: email addresses, row ids and activation
    /// tokens are unique across rows, no row's token equals its own id,
    /// and every persisted field once passed the parsers.
    pub open spec fn wf(&self) -> bool {
        &&& forall|i: int, j: int|
            #![trigger self.rows@[i], self.rows@[j]]
            0 <= i < j < self.rows@.len() ==> {
                &&& self.rows@[i].email@ != self.rows@[j].email@
                &&& self.rows@[i].auth_token != self.rows@[j].auth_token
                &&& self.rows@[i].id != self.rows@[j].id
            }
        &&& forall|i: int|
            0 <= i < self.rows@.len() ==> {
                &&& (#[trigger] self.rows@[i]).auth_token != self.rows@[i].id
                &&& valid_email(self.rows@[i].email@)
                &&& valid_name(self.rows@[i].name@)
            }
    }

    /// Whether some row carries this email address.
    pub open spec fn contains_email(&self, e: Seq<char>) -> bool {
        exists|i: int| 0 <= i < self.rows@.len() && (#[trigger] self.rows@[i]).email@ == e
    }

    /// Whether some unconfirmed row carries this activation token: the
    /// one situation in which the token can still be spent.
    pub open spec fn has_live_token(&self, t: u128) -> bool {
        exists|i: int|
            0 <= i < self.rows@.len() && (#[trigger] self.rows@[i]).auth_token == t
                && !self.rows@[i].status
    }

    /// The index of the unconfirmed row carrying this token; in a
    /// well-formed store there is at most one.
    pub open spec fn live_token_row(&self, t: u128) -> int {
        choose|i: int|
            0 <= i < self.rows@.len() && (#[trigger] self.rows@[i]).auth_token == t
                && !self.rows@[i].status
    }

    /// Whether a candidate row id and activation token collide with
    /// nothing already persisted, and not with each other.
    pub open spec fn fresh_ids(&self, id: u128, token: u128) -> bool {
        &&& id != token
        &&& forall|i: int|
            0 <= i < self.rows@.len() ==> (#[trigger] self.rows@[i]).id != id
                && self.rows@[i].auth_token != token
    }

    /// An empty, reachable store.
    pub fn new() -> (s: SubscriberStore)
        ensures
            s.wf(),
            s.rows@.len() == 0,
            s.available,
    {
        SubscriberStore { rows: Vec::new(), available: true }
    }

    /// Models the storage transport going down or coming back; the rows
    /// themselves are untouched.
    pub fn set_available(&mut self, a: bool)
        ensures
            final(self).rows@ == old(self).rows@,
            final(self).available == a,
            old(self).wf() ==> final(self).wf(),
    {
        self.available = a;
    }

    /// The index of the row carrying this address, if any.
    fn find_email_index(&self, e: &str) -> (r: Option<usize>)
        ensures
            r matches Some(i) ==> i < self.rows@.len() && self.rows@[i as int].email@ == e@,
            r is None ==> !self.contains_email(e@),
    {
        let n = self.rows.len();
        let mut k: usize = 0;
        while k < n
            invariant
                k <= n,
                n == self.rows@.len(),
                forall|j: int| 0 <= j < k ==> (#[trigger] self.rows@[j]).email@ != e@,
            decreases n - k,
        {
            if str_eq(self.rows[k].email.as_str(), e) {
                return Some(k);
            }
            k = k + 1;
        }
        None
    }

    /// Persists one new unconfirmed subscriber row, as one atomic unit
    /// with its uniqueness checks. Fails with
    /// `UniqueConstraintViolation` exactly when the address is already
    /// subscribed or the candidate identifiers are not fresh; succeeds
    /// otherwise, appending the row unchanged from its parts.
    #[verifier::loop_isolation(false)]
    pub fn insert(&mut self, account: &ParsedAccount, id: u128, token: u128, now: i64) -> (r:
        Result<AccountDB, StoreError>)
        requires
            old(self).wf(),
        ensures
            final(self).wf(),
            final(self).available == old(self).available,
            old(self).rows@.len() <= final(self).rows@.len(),
            forall|k: int|
                0 <= k < old(self).rows@.len() ==> final(self).rows@[k] == (#[trigger] old(self).rows@[k]),
            r is Ok <==> (old(self).available && !old(self).contains_email(account.email@) && old(self).fresh_ids(id, token)),
            !old(self).available ==> r == Err::<AccountDB, StoreError>(StoreError::Unavailable) && final(self).rows@ == old(self).rows@,
            old(self).available && old(self).contains_email(account.email@) ==> r == Err::<AccountDB, StoreError>(StoreError::UniqueConstraintViolation) && final(self).rows@ == old(self).rows@,
            old(self).available && !old(self).contains_email(account.email@) && !old(self).fresh_ids(id, token) ==> r == Err::<AccountDB, StoreError>(StoreError::UniqueConstraintViolation) && final(self).rows@ == old(self).rows@,
            r matches Ok(row) ==> {
                &&& row.id == id
                &&& row.auth_token == token
                &&& row.subscribed_at == now
                &&& row.email@ == account.email@
                &&& row.name@ == account.name@
                &&& row.status == false
                &&& final(self).rows@ == old(self).rows@.push(row)
                &&& final(self).contains_email(account.email@)
                &&& final(self).has_live_token(token)
            },
    {
        if !self.available {
            return Err(StoreError::Unavailable);
        }
        if self.find_email_index(account.email.as_str()).is_some() {
            return Err(StoreError::UniqueConstraintViolation);
        }
        if id == token {
            return Err(StoreError::UniqueConstraintViolation);
        }
        let n = self.rows.len();
        let mut k: usize = 0;
        while k < n
            invariant
                k <= n,
                n == self.rows@.len(),
                forall|j: int|
                    0 <= j < k ==> (#[trigger] self.rows@[j]).id != id && self.rows@[j].auth_token
                        != token,
            decreases n - k,
        {
            if self.rows[k].id == id || self.rows[k].auth_token == token {
                return Err(StoreError::UniqueConstraintViolation);
            }
            k = k + 1;
        }
        account.email.validity();
        account.name.validity();
        let row = account.to_account_db(id, token, now);
        let result = row.clone();
        self.rows.push(row);
        proof {
            let rs = self.rows@;
            let last = rs.len() - 1;
            assert forall|i: int, j: int|
                #![trigger rs[i], rs[j]]
                0 <= i < j < rs.len() implies {
                &&& rs[i].email@ != rs[j].email@
                &&& rs[i].auth_token != rs[j].auth_token
                &&& rs[i].id != rs[j].id
            } by {
                if j == last {
                    assert(rs[i] == old(self).rows@[i]);
                }
            }
            lemma_duplicate_signup(*old(self), *self, row);
            assert(final(self).has_live_token(token)) by {
                assert(rs[last].auth_token == token && !rs[last].status);
            }
        }
        Ok(result)
    }

    /// Every persisted row, or `Unavailable`; never a partial or empty
    /// substitute for a failed read.
    pub fn list_all(&self) -> (r: Result<&Vec<AccountDB>, StoreError>)
        ensures
            self.available ==> (r matches Ok(v) && v@ == self.rows@),
            !self.available ==> r == Err::<&Vec<AccountDB>, StoreError>(StoreError::Unavailable),
    {
        if self.available {
            Ok(&self.rows)
        } else {
            Err(StoreError::Unavailable)
        }
    }

    /// The one atomic transition of the lifecycle: find the unconfirmed
    /// row carrying this token, set it confirmed, and return the
    /// updated row. Fails with `NotFound` when no unconfirmed row
    /// carries the token — unknown and already-spent tokens are not
    /// distinguished. Afterwards (if the store was reachable) no
    /// unconfirmed row carries the token: a token is spent at most
    /// once. No row's status ever goes back from confirmed, and no
    /// other field of any row changes.
    #[verifier::loop_isolation(false)]
    pub fn activate_by_token(&mut self, token: u128) -> (r: Result<AccountDB, StoreError>)
        requires
            old(self).wf(),
        ensures
            final(self).wf(),
            final(self).available == old(self).available,
            final(self).rows@.len() == old(self).rows@.len(),
            !old(self).available ==> r == Err::<AccountDB, StoreError>(StoreError::Unavailable) && final(self).rows@ == old(self).rows@,
            old(self).available && !old(self).has_live_token(token) ==> r == Err::<AccountDB, StoreError>(StoreError::NotFound) && final(self).rows@ == old(self).rows@,
            old(self).available && old(self).has_live_token(token) ==> ({
                let i = old(self).live_token_row(token);
                &&& r matches Ok(row)
                &&& row.auth_token == token
                &&& row.status == true
                &&& row.id == old(self).rows@[i].id
                &&& row.email@ == old(self).rows@[i].email@
                &&& row.name@ == old(self).rows@[i].name@
                &&& row.subscribed_at == old(self).rows@[i].subscribed_at
                &&& final(self).rows@ == old(self).rows@.update(i, row)
            }),
            old(self).available ==> !final(self).has_live_token(token),
            forall|k: int|
                0 <= k < old(self).rows@.len() ==> ((#[trigger] old(self).rows@[k]).status ==>
                    final(self).rows@[k].status),
            forall|k: int|
                0 <= k < old(self).rows@.len() ==> {
                    &&& (#[trigger] final(self).rows@[k]).id == old(self).rows@[k].id
                    &&& final(self).rows@[k].auth_token == old(self).rows@[k].auth_token
                    &&& final(self).rows@[k].email@ == old(self).rows@[k].email@
                    &&& final(self).rows@[k].name@ == old(self).rows@[k].name@
                    &&& final(self).rows@[k].subscribed_at == old(self).rows@[k].subscribed_at
                },
    {
        if !self.available {
            return Err(StoreError::Unavailable);
        }
        let n = self.rows.len();
        let mut k: usize = 0;
        while k < n
            invariant
                k <= n,
                n == self.rows@.len(),
                self.rows@ == old(self).rows@,
                self.available == old(self).available,
                forall|j: int|
                    0 <= j < k ==> !((#[trigger] self.rows@[j]).auth_token == token
                        && !self.rows@[j].status),
            decreases n - k,
        {
            if self.rows[k].auth_token == token && !self.rows[k].status {
                let id = self.rows[k].id;
                let subscribed_at = self.rows[k].subscribed_at;
                let email = self.rows[k].email.clone();
                let name = self.rows[k].name.clone();
                let new_row = AccountDB {
                    id,
                    subscribed_at,
                    email,
                    name,
                    status: true,
                    auth_token: token,
                };
                let result = new_row.clone();
                proof {
                    let i = old(self).live_token_row(token);
                    assert(0 <= i < old(self).rows@.len() && old(self).rows@[i].auth_token == token
                        && !old(self).rows@[i].status);
                    if i != k {
                        assert(false);
                    }
                }
                self.rows[k] = new_row;
                proof {
                    lemma_token_single_use(
                        *old(self),
                        *self,
                        token,
                        k as int,
                        new_row,
                    );
                    let rs = self.rows@;
                    assert forall|i: int, j: int|
                        #![trigger rs[i], rs[j]]
                        0 <= i < j < rs.len() implies {
                        &&& rs[i].email@ != rs[j].email@
                        &&& rs[i].auth_token != rs[j].auth_token
                        &&& rs[i].id != rs[j].id
                    } by {
                        assert(old(self).rows@[i].email@ != old(self).rows@[j].email@);
                    }
                }
                return Ok(result);
            }
            k = k + 1;
        }
        Err(StoreError::NotFound)
    }
}

/// LAW: an activation token is single-use. Once the row carrying it is
/// confirmed, no unconfirmed row carries it any more (tokens are unique
/// in a well-formed store), so `activate_by_token` refuses every later
/// presentation of it with `NotFound`.
pub proof fn lemma_token_single_use(
    pre: SubscriberStore,
    post: SubscriberStore,
    t: u128,
    i: int,
    row: AccountDB,
)
    requires
        pre.wf(),
        0 <= i < pre.rows@.len(),
        pre.rows@[i].auth_token == t,
        row.status,
        post.rows@ == pre.rows@.update(i, row),
    ensures
        !post.has_live_token(t),
{
    assert forall|j: int|
        0 <= j < post.rows@.len() implies !((#[trigger] post.rows@[j]).auth_token == t
        && !post.rows@[j].status) by {
        if j != i {
            assert(post.rows@[j] == pre.rows@[j]);
            if j < i {
                assert(pre.rows@[j].auth_token != pre.rows@[i].auth_token);
            } else {
                assert(pre.rows@[i].auth_token != pre.rows@[j].auth_token);
            }
        }
    }
}

/// LAW: a successful signup leaves its address in the store, so of two
/// signups for the same address the later one finds it present and
/// `insert` refuses it as a `UniqueConstraintViolation`: at most one
/// can succeed.
pub proof fn lemma_duplicate_signup(pre: SubscriberStore, post: SubscriberStore, row: AccountDB)
    requires
        post.rows@ == pre.rows@.push(row),
    ensures
        post.contains_email(row.email@),
{
    assert(post.rows@[post.rows@.len() - 1] == row);
}

/// Character-for-character equality of two strings.
fn str_eq(a: &str, b: &str) -> (r: bool)
    ensures
        r == (a@ == b@),
{
    let la = a.unicode_len();
    let lb = b.unicode_len();
    if la != lb {
        return false;
    }
    let mut i: usize = 0;
    while i < la
        invariant
            i <= la,
            la == a@.len(),
            lb == b@.len(),
            la == lb,
            forall|j: int| 0 <= j < i ==> a@[j] == b@[j],
        decreases la - i,
    {
        if a.get_char(i) != b.get_char(i) {
            return false;
        }
        i = i + 1;
    }
    proof {
        assert(a@ =~= b@);
    }
    true
}

} // verus!

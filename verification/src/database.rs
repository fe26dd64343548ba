//! The account store: an append-only table of account rows that assigns
//! uids, issues bearer tokens and enforces username uniqueness by
//! check-then-insert.

use crate::schema::{valid_username, Password, Username};
use rand::distributions::DistString;
use vstd::prelude::*;

verus! {

/// The largest uid the store hands out; a row count at this bound refuses
/// further inserts.
pub const MAX_UID: i32 = 0x7fff_ffff;

/// The characters a bearer token is drawn from: ASCII letters and digits.
pub open spec fn is_token_char(c: char) -> bool {
    ||| 'a' <= c && c <= 'z'
    ||| 'A' <= c && c <= 'Z'
    ||| '0' <= c && c <= '9'
}

/// A bearer token: exactly 64 alphanumeric characters.
pub open spec fn is_token(s: Seq<char>) -> bool {
    &&& s.len() == 64
    &&& forall|i: int| 0 <= i < s.len() ==> is_token_char(#[trigger] s[i])
}

/// Relies on rand's `Alphanumeric` distribution with `thread_rng`:
/// `sample_string` returns exactly `len` characters, each drawn from
/// `[A-Za-z0-9]`. Nothing further is assumed of the random choice.
#[verifier::external_body]
fn sample_alphanumeric(len: usize) -> (r: String)
    ensures
        r@.len() == len,
        forall|i: int| 0 <= i < r@.len() ==> is_token_char(#[trigger] r@[i]),
{
    rand::distributions::Alphanumeric.sample_string(&mut rand::thread_rng(), len)
}

/// One persisted account: a store-assigned uid, a bearer token issued at
/// creation, the validated username and the password hash.
pub struct DbSdkAccountRow {
    pub uid: i32,
    pub token: String,
    pub username: Username,
    pub password: Password,
}

impl Clone for DbSdkAccountRow {
    fn clone(&self) -> (r: Self)
        ensures
            r == *self,
    {
        DbSdkAccountRow {
            uid: self.uid,
            token: self.token.clone(),
            username: self.username.clone(),
            password: self.password.clone(),
        }
    }
}

/// A storage fault, distinct from the domain outcome "username taken".
/// The in-memory table can fail only by running out of uids.
pub enum StorageError {
    /// Every uid up to [`MAX_UID`] is taken.
    TableFull,
}

/// No two rows share a username.
pub open spec fn usernames_distinct(s: Seq<DbSdkAccountRow>) -> bool {
    forall|i: int, j: int| 0 <= i < j < s.len() ==> s[i].username@ != s[j].username@
}

/// Some row of `s` holds `name`.
pub open spec fn contains_username(s: Seq<DbSdkAccountRow>, name: Seq<char>) -> bool {
    exists|i: int| 0 <= i < s.len() && (#[trigger] s[i]).username@ == name
}

/// Exactly one row of `s` holds `name`.
pub open spec fn unique_username(s: Seq<DbSdkAccountRow>, name: Seq<char>) -> bool {
    exists|i: int|
        {
            &&& 0 <= i < s.len()
            &&& (#[trigger] s[i]).username@ == name
            &&& forall|j: int| 0 <= j < s.len() && (#[trigger] s[j]).username@ == name ==> j == i
        }
}

/// The account table. Rows are only ever appended: uids run 1, 2, ... in row
/// order, usernames are distinct and valid.
pub struct DbContext {
    rows: Vec<DbSdkAccountRow>,
}

impl View for DbContext {
    type V = Seq<DbSdkAccountRow>;

    closed spec fn view(&self) -> Seq<DbSdkAccountRow> {
        self.rows@
    }
}

impl DbContext {
    /// The store's invariant: uid equals row position plus one (so uids are
    /// distinct and fresh ones are larger than all existing ones), usernames
    /// are distinct and valid, and the table has room for uids to fit in
    /// their column type.
    pub open spec fn wf(&self) -> bool {
        &&& self@.len() <= MAX_UID
        &&& forall|i: int| 0 <= i < self@.len() ==> (#[trigger] self@[i]).uid == i + 1
        &&& forall|i: int|
            0 <= i < self@.len() ==> valid_username((#[trigger] self@[i]).username@)
        &&& usernames_distinct(self@)
    }

    /// An empty store, as after initialising a fresh database.
    pub fn new() -> (r: DbContext)
        ensures
            r.wf(),
            r@.len() == 0,
    {
        DbContext { rows: Vec::new() }
    }

    /// Exact-match lookup on the username column; `None` (inside `Ok`) when
    /// no row holds `username`. The in-memory lookup itself cannot fail.
    pub fn get_account_by_name(&self, username: String) -> (r: Result<
        Option<DbSdkAccountRow>,
        StorageError,
    >)
        ensures
            r is Ok,
            match r->Ok_0 {
                Some(row) => {
                    &&& exists|i: int| 0 <= i < self@.len() && (#[trigger] self@[i]) == row
                    &&& row.username@ == username@
                },
                None => !contains_username(self@, username@),
            },
    {
        let n = self.rows.len();
        for i in 0..n
            invariant
                n == self@.len(),
                forall|j: int| 0 <= j < i ==> (#[trigger] self@[j]).username@ != username@,
        {
            if self.rows[i].username.matches(&username) {
                return Ok(Some(self.rows[i].clone()));
            }
        }
        Ok(None)
    }

    /// Exact-match lookup on the uid column; `None` (inside `Ok`) when no row
    /// holds `uid`, never an error.
    pub fn get_account_by_uid(&self, uid: i32) -> (r: Result<
        Option<DbSdkAccountRow>,
        StorageError,
    >)
        ensures
            r is Ok,
            match r->Ok_0 {
                Some(row) => {
                    &&& exists|i: int| 0 <= i < self@.len() && (#[trigger] self@[i]) == row
                    &&& row.uid == uid
                },
                None => forall|i: int| 0 <= i < self@.len() ==> (#[trigger] self@[i]).uid != uid,
            },
    {
        let n = self.rows.len();
        for i in 0..n
            invariant
                n == self@.len(),
                forall|j: int| 0 <= j < i ==> (#[trigger] self@[j]).uid != uid,
        {
            if self.rows[i].uid == uid {
                return Ok(Some(self.rows[i].clone()));
            }
        }
        Ok(None)
    }

    /// Check-then-insert. If a row already holds the username, no row is
    /// created and `Ok(None)` comes back. Otherwise a fresh 64-character
    /// alphanumeric token is drawn, the row is appended under the next uid,
    /// and a copy of the persisted row is returned; only a full table is an
    /// error, and it leaves the store unchanged.
    pub fn create_account(&mut self, username: Username, password: Password) -> (r: Result<
        Option<DbSdkAccountRow>,
        StorageError,
    >)
        requires
            old(self).wf(),
        ensures
            final(self).wf(),
            contains_username(old(self)@, username@) ==> (r matches Ok(opt) && opt is None
                && final(self)@ == old(self)@),
            !contains_username(old(self)@, username@) && old(self)@.len() < MAX_UID ==> (
            r matches Ok(opt) && opt matches Some(row) && {
                &&& final(self)@ == old(self)@.push(row)
                &&& row.uid == old(self)@.len() + 1
                &&& row.username@ == username@
                &&& row.password == password
                &&& is_token(row.token@)
                &&& unique_username(final(self)@, username@)
            }),
            !contains_username(old(self)@, username@) && old(self)@.len() == MAX_UID ==> (
            r matches Err(e) && e is TableFull && final(self)@ == old(self)@),
    {
        proof {
            use_type_invariant(&username);
        }
        let existing = match self.get_account_by_name(username.as_str().to_owned()) {
            Ok(existing) => existing,
            Err(err) => {
                return Err(err);
            },
        };
        if existing.is_some() {
            return Ok(None);
        }
        if self.rows.len() >= MAX_UID as usize {
            return Err(StorageError::TableFull);
        }
        let token = sample_alphanumeric(64);
        let uid = (self.rows.len() + 1) as i32;
        let row = DbSdkAccountRow { uid, token, username, password };
        let persisted = row.clone();
        proof {
            lemma_create_keeps_username_unique(self@, row);
        }
        self.rows.push(row);
        Ok(Some(persisted))
    }
}

/// What a sequence of persisted `(uid, token, username, password-hash)`
/// columns must satisfy to rebuild a well-formed store: uids run 1, 2, ... in
/// row order and usernames are valid and distinct.
pub open spec fn loadable(data: Seq<(i32, String, String, String)>) -> bool {
    &&& data.len() <= MAX_UID
    &&& forall|i: int| 0 <= i < data.len() ==> (#[trigger] data[i]).0 == i + 1
    &&& forall|i: int| 0 <= i < data.len() ==> valid_username((#[trigger] data[i]).2@)
    &&& forall|i: int, j: int| 0 <= i < j < data.len() ==> data[i].2@ != data[j].2@
}

impl DbContext {
    /// Rebuilds the store from persisted `(uid, token, username, password)`
    /// columns, re-validating every invariant; data that no run of this store
    /// could have written is refused with `None`.
    pub fn from_rows(data: Vec<(i32, String, String, String)>) -> (r: Option<DbContext>)
        ensures
            r is Some <==> loadable(data@),
            r matches Some(db) ==> {
                &&& db.wf()
                &&& db@.len() == data@.len()
                &&& forall|i: int|
                    0 <= i < data@.len() ==> {
                        &&& (#[trigger] db@[i]).uid == data@[i].0
                        &&& db@[i].token@ == data@[i].1@
                        &&& db@[i].username@ == data@[i].2@
                        &&& db@[i].password@ == data@[i].3@
                    }
            },
    {
        let n = data.len();
        let mut rows: Vec<DbSdkAccountRow> = Vec::new();
        for i in 0..n
            invariant
                n == data@.len(),
                rows@.len() == i,
                i <= MAX_UID,
                forall|j: int| 0 <= j < i ==> (#[trigger] data@[j]).0 == j + 1,
                forall|j: int| 0 <= j < i ==> valid_username((#[trigger] data@[j]).2@),
                forall|j: int, k: int| 0 <= j < k < i ==> data@[j].2@ != data@[k].2@,
                forall|j: int|
                    0 <= j < i ==> {
                        &&& (#[trigger] rows@[j]).uid == data@[j].0
                        &&& rows@[j].token@ == data@[j].1@
                        &&& rows@[j].username@ == data@[j].2@
                        &&& rows@[j].password@ == data@[j].3@
                    },
        {
            if i >= MAX_UID as usize {
                return None;
            }
            let item = &data[i];
            if item.0 != (i + 1) as i32 {
                return None;
            }
            let username = match Username::parse(item.2.clone()) {
                Some(username) => username,
                None => {
                    return None;
                },
            };
            let mut j: usize = 0;
            while j < i
                invariant
                    j <= i < n,
                    n == data@.len(),
                    rows@.len() == i,
                    username@ == data@[i as int].2@,
                    forall|k: int|
                        0 <= k < i ==> (#[trigger] rows@[k]).username@ == data@[k].2@,
                    forall|k: int| 0 <= k < j ==> (#[trigger] rows@[k]).username@ != username@,
                decreases i - j,
            {
                if rows[j].username.same_as(&username) {
                    assert(data@[j as int].2@ == data@[i as int].2@);
                    return None;
                }
                j += 1;
            }
            assert forall|k: int| 0 <= k < i implies (#[trigger] data@[k]).2@
                != data@[i as int].2@ by {
                assert(rows@[k].username@ == data@[k].2@);
            }
            rows.push(
                DbSdkAccountRow {
                    uid: item.0,
                    token: item.1.clone(),
                    username,
                    password: Password::from_hash(item.3.clone()),
                },
            );
        }
        Some(DbContext { rows })
    }
}

/// Inserting a row for a name that no existing row of a duplicate-free table
/// holds keeps usernames distinct, makes the table contain the name, and
/// leaves exactly one row holding it; a second insert for the same name is
/// therefore refused by check-then-insert.
pub proof fn lemma_create_keeps_username_unique(s: Seq<DbSdkAccountRow>, row: DbSdkAccountRow)
    requires
        usernames_distinct(s),
        !contains_username(s, row.username@),
    ensures
        usernames_distinct(s.push(row)),
        contains_username(s.push(row), row.username@),
        unique_username(s.push(row), row.username@),
{
    let t = s.push(row);
    assert(t[s.len() as int] == row);
    assert forall|i: int, j: int| 0 <= i < j < t.len() implies t[i].username@
        != t[j].username@ by {
        if j < s.len() {
            assert(t[i] == s[i] && t[j] == s[j]);
        } else {
            assert(t[j] == row && t[i] == s[i]);
        }
    }
    assert forall|j: int| 0 <= j < t.len() && (#[trigger] t[j]).username@ == row.username@ implies j
        == s.len() by {
        if j < s.len() {
            assert(t[j] == s[j]);
        }
    }
}

} // verus!

//! The registration decision: validate the submitted credentials, then
//! create the account if the username is free. Rendering the outcome to the
//! user is the caller's business.

use crate::database::{contains_username, is_token, DbContext, DbSdkAccountRow, StorageError};
use crate::schema::{
    pbkdf2_verifies, valid_password_len, valid_username, Password, PasswordError, Username,
};
use vstd::prelude::*;

verus! {

/// What a registration request came to.
pub enum RegisterOutcome {
    /// The account was created; the persisted row is handed back.
    Created(DbSdkAccountRow),
    /// Another account already holds the username.
    UsernameTaken,
    /// The username does not match the required pattern.
    InvalidUsername,
    /// The two submitted passwords differ.
    PasswordPairMismatch,
    /// The password length is outside the accepted range.
    PasswordRequirementsMismatch,
    /// The hashing engine or the store failed: a server fault, not an input
    /// error.
    ServerFault,
}

/// Validates the raw submission and performs check-then-insert on the store.
/// Exactly one outcome fits each input: username format first, then the
/// password pair, then the length rule, then the duplicate check, then
/// creation; only a hashing or storage fault may yield `ServerFault`, and
/// every outcome but `Created` leaves the store untouched.
pub fn process_register_request(
    db: &mut DbContext,
    username: String,
    password: String,
    password_v2: String,
) -> (r: RegisterOutcome)
    requires
        old(db).wf(),
    ensures
        final(db).wf(),
        !valid_username(username@) ==> r is InvalidUsername && final(db)@ == old(db)@,
        valid_username(username@) && password@ != password_v2@ ==> r is PasswordPairMismatch
            && final(db)@ == old(db)@,
        valid_username(username@) && password@ == password_v2@ && !valid_password_len(
            password@.len(),
        ) ==> r is PasswordRequirementsMismatch && final(db)@ == old(db)@,
        valid_username(username@) && password@ == password_v2@ && valid_password_len(
            password@.len(),
        ) ==> match r {
            RegisterOutcome::Created(row) => {
                &&& !contains_username(old(db)@, username@)
                &&& final(db)@ == old(db)@.push(row)
                &&& row.uid == old(db)@.len() + 1
                &&& row.username@ == username@
                &&& is_token(row.token@)
                &&& pbkdf2_verifies(password@, row.password@)
            },
            RegisterOutcome::UsernameTaken => contains_username(old(db)@, username@)
                && final(db)@ == old(db)@,
            RegisterOutcome::ServerFault => final(db)@ == old(db)@,
            _ => false,
        },
{
    let username = match Username::parse(username) {
        Some(username) => username,
        None => {
            return RegisterOutcome::InvalidUsername;
        },
    };
    let password = match Password::new(password, password_v2) {
        Ok(password) => password,
        Err(PasswordError::PairMismatch) => {
            return RegisterOutcome::PasswordPairMismatch;
        },
        Err(PasswordError::RequirementsMismatch) => {
            return RegisterOutcome::PasswordRequirementsMismatch;
        },
        Err(PasswordError::HashFailed(_)) => {
            return RegisterOutcome::ServerFault;
        },
    };
    match db.create_account(username, password) {
        Ok(Some(row)) => RegisterOutcome::Created(row),
        Ok(None) => RegisterOutcome::UsernameTaken,
        Err(StorageError::TableFull) => RegisterOutcome::ServerFault,
    }
}

/// How an outcome is reported to the user: success exactly when a row was
/// created.
pub enum ResultStatus {
    Failure,
    Success,
}

impl ResultStatus {
    /// The status keyword the result page carries.
    pub fn as_str(&self) -> (r: &str)
        ensures
            self is Success ==> r@ == "success"@,
            self is Failure ==> r@ == "error"@,
    {
        match self {
            ResultStatus::Failure => "error",
            ResultStatus::Success => "success",
        }
    }
}

/// The status a registration outcome is reported under.
pub fn status_of(outcome: &RegisterOutcome) -> (r: ResultStatus)
    ensures
        r is Success <==> outcome is Created,
{
    match outcome {
        RegisterOutcome::Created(_) => ResultStatus::Success,
        _ => ResultStatus::Failure,
    }
}

} // verus!

//! The credential value types: a validated username and a hashed password.

use pbkdf2::password_hash::{PasswordHasher, PasswordVerifier};
use vstd::prelude::*;

verus! {

/// The characters a username may contain: ASCII letters, digits, `.`, `_`,
/// `@` and `-`.
pub open spec fn is_username_char(c: char) -> bool {
    ||| 'a' <= c && c <= 'z'
    ||| 'A' <= c && c <= 'Z'
    ||| '0' <= c && c <= '9'
    ||| c == '.'
    ||| c == '_'
    ||| c == '@'
    ||| c == '-'
}

/// A valid username is 6 to 25 characters long, all drawn from
/// [`is_username_char`].
pub open spec fn valid_username(s: Seq<char>) -> bool {
    &&& 6 <= s.len() <= 25
    &&& forall|i: int| 0 <= i < s.len() ==> is_username_char(#[trigger] s[i])
}

/// A username whose wrapped string always satisfies [`valid_username`]:
/// [`Username::parse`] is the only way to construct one.
pub struct Username {
    raw: String,
}

impl View for Username {
    type V = Seq<char>;

    closed spec fn view(&self) -> Seq<char> {
        self.raw@
    }
}

/// Every constructed username satisfies the pattern: construction is the
/// only validation point.
#[verifier::type_invariant]
pub open spec fn username_inv(u: Username) -> bool {
    valid_username(u@)
}

impl Username {
    /// Accepts exactly the strings matching `^[A-Za-z0-9._@-]{6,25}$` and
    /// wraps them unchanged; every other string is rejected with `None`.
    pub fn parse(username: String) -> (r: Option<Username>)
        ensures
            r is Some <==> valid_username(username@),
            r is Some ==> r.unwrap()@ == username@,
    {
        let len = username.as_str().unicode_len();
        if len < 6 || len > 25 {
            return None;
        }
        for i in 0..len
            invariant
                len == username@.len(),
                forall|j: int| 0 <= j < i ==> is_username_char(#[trigger] username@[j]),
        {
            let c = username.as_str().get_char(i);
            let ok = (c >= 'a' && c <= 'z') || (c >= 'A' && c <= 'Z') || (c >= '0' && c <= '9')
                || c == '.' || c == '_' || c == '@' || c == '-';
            if !ok {
                return None;
            }
        }
        Some(Username { raw: username })
    }

    /// The wrapped string, exactly as it was parsed.
    pub fn as_str(&self) -> (r: &str)
        ensures
            r@ == self@,
    {
        self.raw.as_str()
    }

    /// Whether the wrapped string equals `other`.
    pub fn matches(&self, other: &String) -> (r: bool)
        ensures
            r == (self@ == other@),
    {
        self.raw == *other
    }

    /// Whether two usernames wrap the same string.
    pub fn same_as(&self, other: &Username) -> (r: bool)
        ensures
            r == (self@ == other@),
    {
        self.raw == other.raw
    }
}

impl Clone for Username {
    fn clone(&self) -> (r: Self)
        ensures
            r == *self,
    {
        proof {
            use_type_invariant(self);
        }
        Username { raw: self.raw.clone() }
    }
}

/// The PHC-string verification relation of the PBKDF2 scheme in use: whether
/// `phc` is a well-formed encoded hash whose digest matches `password`. Both
/// hashing and verification are deterministic in these two values.
pub uninterp spec fn pbkdf2_verifies(password: Seq<char>, phc: Seq<char>) -> bool;

/// The error type of the `password_hash` crate, carried opaquely by
/// [`PasswordError::HashFailed`].
#[verifier::external_type_specification]
#[verifier::external_body]
pub struct ExPasswordHashError(pbkdf2::password_hash::Error);

/// Relies on `password_hash::SaltString::generate` and
/// `pbkdf2::Pbkdf2::hash_password`: on success the returned PHC string embeds
/// the algorithm, its parameters, the fresh salt and the digest, and verifying
/// it against the very password that was hashed succeeds.
#[verifier::external_body]
fn hash_string(password: &str) -> (r: Result<String, pbkdf2::password_hash::Error>)
    ensures
        r is Ok ==> pbkdf2_verifies(password@, (r->Ok_0)@),
{
    let salt = pbkdf2::password_hash::SaltString::generate(
        &mut pbkdf2::password_hash::rand_core::OsRng,
    );
    match pbkdf2::Pbkdf2.hash_password(password.as_bytes(), &salt) {
        Ok(hash) => Ok(hash.to_string()),
        Err(err) => Err(err),
    }
}

/// Relies on `password_hash::PasswordHash::new` and
/// `pbkdf2::Pbkdf2::verify_password`: both recompute from their arguments
/// alone, and a stored string that does not parse as a PHC hash counts as a
/// failed verification rather than an error.
#[verifier::external_body]
fn verify_hash(password: &str, hash: &str) -> (r: bool)
    ensures
        r == pbkdf2_verifies(password@, hash@),
{
    match pbkdf2::password_hash::PasswordHash::new(hash) {
        Ok(parsed) => pbkdf2::Pbkdf2.verify_password(password.as_bytes(), &parsed).is_ok(),
        Err(_) => false,
    }
}

/// Why constructing a [`Password`] failed.
pub enum PasswordError {
    /// The two submitted plaintexts differ.
    PairMismatch,
    /// The plaintext length is outside the accepted range.
    RequirementsMismatch,
    /// The hashing engine itself failed; a server fault, not an input error.
    HashFailed(pbkdf2::password_hash::Error),
}

/// The plaintext length a password must have: at least 8 characters and
/// strictly fewer than 30 (a half-open range kept exactly as designed).
pub open spec fn valid_password_len(n: nat) -> bool {
    8 <= n < 30
}

/// A salted password hash in PHC string form; the plaintext is discarded at
/// construction and never stored.
pub struct Password {
    hash: String,
}

impl View for Password {
    type V = Seq<char>;

    closed spec fn view(&self) -> Seq<char> {
        self.hash@
    }
}

impl Password {
    /// Checks that the two submissions agree and that the plaintext length is
    /// acceptable, then hashes the plaintext with a fresh salt. The stored
    /// hash verifies against the plaintext it was built from.
    pub fn new(password: String, password_v2: String) -> (r: Result<Password, PasswordError>)
        ensures
            (r matches Err(e) && e is PairMismatch) <==> password@ != password_v2@,
            (r matches Err(e) && e is RequirementsMismatch) <==> password@ == password_v2@
                && !valid_password_len(password@.len()),
            r matches Err(e) && e is HashFailed ==> password@ == password_v2@
                && valid_password_len(password@.len()),
            r is Ok ==> password@ == password_v2@ && valid_password_len(password@.len())
                && pbkdf2_verifies(password@, (r->Ok_0)@),
    {
        if !(password == password_v2) {
            return Err(PasswordError::PairMismatch);
        }
        let len = password.as_str().unicode_len();
        if !(8 <= len && len < 30) {
            return Err(PasswordError::RequirementsMismatch);
        }
        match hash_string(password.as_str()) {
            Ok(hash) => Ok(Password { hash }),
            Err(err) => Err(PasswordError::HashFailed(err)),
        }
    }

    /// Rebuilds a password value around a stored hash string, as when a
    /// persisted row is decoded; `verify` treats a malformed string as a
    /// mismatch.
    pub fn from_hash(hash: String) -> (r: Password)
        ensures
            r@ == hash@,
    {
        Password { hash }
    }

    /// Whether `password` matches the stored hash. Deterministic in the
    /// candidate and the hash; false on any mismatch or malformed hash.
    pub fn verify(&self, password: &str) -> (r: bool)
        ensures
            r == pbkdf2_verifies(password@, self@),
    {
        verify_hash(password, self.hash.as_str())
    }

    /// The stored hash string, for persistence.
    pub fn as_hash_str(&self) -> (r: &str)
        ensures
            r@ == self@,
    {
        self.hash.as_str()
    }
}

impl Clone for Password {
    fn clone(&self) -> (r: Self)
        ensures
            r == *self,
    {
        Password { hash: self.hash.clone() }
    }
}

} // verus!

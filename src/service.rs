//! The decisions of register and login. Reading and writing the user store
//! is the caller's part: it hands in what the store answered.
use vstd::prelude::*;
use crate::codec::str_eq;
use crate::config::AuthConfig;
use crate::error::{AuthError, AuthErrorType};
use crate::password::{bcrypt_hashed, bcrypt_verified, hash_password, hashed_from, verify_password, HASH_COST};
use crate::user::{User, UserInformation, UserLogin, UserRegister};

verus! {

/// What the user store answered to a lookup.
#[derive(Clone, Debug)]
pub enum StoreLookup {
    Found(User),
    Absent,
    /// The store could not answer (connection, pool or query failure).
    Failed,
}

/// `needle` occurs in `hay`.
pub open spec fn contains(hay: Seq<char>, needle: Seq<char>) -> bool {
    exists|i: int| 0 <= i <= hay.len() - needle.len() && #[trigger] hay.subrange(i, i + needle.len()) == needle
}

/// The store reports a uniqueness violation by this text in its error.
pub open spec fn is_uniqueness_violation(message: Seq<char>) -> bool {
    contains(message, "duplicate key"@)
}

/// Whether `needle` occurs in `hay`.
pub fn contains_text(hay: &str, needle: &str) -> (r: bool)
    ensures
        r == contains(hay@, needle@),
{
    let n = hay.unicode_len();
    let m = needle.unicode_len();
    if m > n {
        return false;
    }
    if m == 0 {
        assert(hay@.subrange(0, 0 + needle@.len() as int) =~= needle@);
        return true;
    }
    let mut i: usize = 0;
    while i <= n - m
        invariant
            n == hay@.len(),
            m == needle@.len(),
            1 <= m <= n,
            i <= n - m + 1,
            forall|j: int| 0 <= j < i ==> #[trigger] hay@.subrange(j, j + m) != needle@,
        decreases n - m + 1 - i,
    {
        if str_eq(hay.substring_char(i, i + m), needle) {
            assert(hay@.subrange(i as int, i + m) == needle@);
            return true;
        }
        i = i + 1;
    }
    assert forall|j: int| 0 <= j <= hay@.len() - needle@.len() implies #[trigger] hay@.subrange(
        j,
        j + needle@.len(),
    ) != needle@ by {
        assert(hay@.subrange(j, j + m) != needle@);
    }
    false
}

/// Whether a store error is a uniqueness violation.
pub fn is_duplicate_key(message: &str) -> (r: bool)
    ensures
        r == is_uniqueness_violation(message@),
{
    contains_text(message, "duplicate key")
}

/// Relies on `uuid::Uuid::new_v4`: a random identifier, written in the
/// hyphenated form of 36 characters.
#[verifier::external_body]
fn new_uuid() -> (r: String)
    ensures
        r@.len() == 36,
{
    uuid::Uuid::new_v4().to_string()
}

/// The record to insert for a registration under the identifier `uuid`: the
/// password is stored hashed, and new users are not admins.
pub fn new_user_record(register: &UserRegister, uuid: String, cfg: &AuthConfig) -> (r: User)
    requires
        cfg.wf(),
    ensures
        r.uuid@ == uuid@,
        r.username@ == register.username@,
        r.email@ == register.email@,
        r.password@ == bcrypt_hashed(register.password@, HASH_COST, cfg.salt@),
        !r.is_admin,
        r.id == 0,
{
    User {
        id: 0,
        uuid,
        username: register.username.clone(),
        password: hash_password(register.password.as_str(), &cfg.salt),
        email: register.email.clone(),
        is_admin: false,
    }
}

/// The record to insert for a registration, under a fresh random identifier.
pub fn prepare_registration(register: &UserRegister, cfg: &AuthConfig) -> (r: User)
    requires
        cfg.wf(),
    ensures
        r.uuid@.len() == 36,
        r.username@ == register.username@,
        r.email@ == register.email@,
        r.password@ == bcrypt_hashed(register.password@, HASH_COST, cfg.salt@),
        !r.is_admin,
{
    new_user_record(register, new_uuid(), cfg)
}

/// The record to write for an update: as given, with the password hashed.
pub fn prepare_update(user: &User, cfg: &AuthConfig) -> (r: User)
    requires
        cfg.wf(),
    ensures
        r.id == user.id,
        r.uuid@ == user.uuid@,
        r.username@ == user.username@,
        r.email@ == user.email@,
        r.is_admin == user.is_admin,
        r.password@ == bcrypt_hashed(user.password@, HASH_COST, cfg.salt@),
{
    User {
        id: user.id,
        uuid: user.uuid.clone(),
        username: user.username.clone(),
        password: hash_password(user.password.as_str(), &cfg.salt),
        email: user.email.clone(),
        is_admin: user.is_admin,
    }
}

/// The answer to a registration, from what the store said to the insert (the
/// stored record, or the text of its error). `UserExists` comes exactly from a
/// uniqueness violation, so never from an insert that succeeded.
pub fn register_outcome(inserted: Result<User, String>) -> (r: Result<UserInformation, AuthError>)
    ensures
        match inserted {
            Ok(u) => r matches Ok(info) && info.uuid@ == u.uuid@ && info.username@ == u.username@
                && info.email@ == u.email@ && info.is_admin == u.is_admin,
            Err(m) => r matches Err(e) && if is_uniqueness_violation(m@) {
                e.is_of(AuthErrorType::UserExists)
            } else {
                e.is_of(AuthErrorType::ServerError)
            },
        },
{
    match inserted {
        Ok(user) => Ok(UserInformation::from_user(user)),
        Err(message) => {
            if is_duplicate_key(message.as_str()) {
                Err(AuthError::from_type(AuthErrorType::UserExists))
            } else {
                Err(AuthError::from_type(AuthErrorType::ServerError))
            }
        },
    }
}

/// The answer to a login, from what the store answered to the lookup of the
/// identifier. A record whose hash was made from the given password always
/// logs in, with that record's identifier; a found record never gives
/// `UserNotExists`, and a store failure gives `ServerError`.
pub fn login_outcome(login: &UserLogin, found: StoreLookup) -> (r: Result<UserInformation, AuthError>)
    ensures
        found is Absent ==> (r matches Err(e) && e.is_of(AuthErrorType::UserNotExists)),
        found is Failed ==> (r matches Err(e) && e.is_of(AuthErrorType::ServerError)),
        found matches StoreLookup::Found(u) ==> match bcrypt_verified(login.password@, u.password@) {
            Some(true) => r matches Ok(info) && info.uuid@ == u.uuid@ && info.username@
                == u.username@ && info.email@ == u.email@ && info.is_admin == u.is_admin,
            Some(false) => r matches Err(e) && e.is_of(AuthErrorType::WrongCredentials),
            None => r matches Err(e) && e.is_of(AuthErrorType::ServerError),
        },
        found matches StoreLookup::Found(u) ==> (hashed_from(login.password@, u.password@) ==> (
        r matches Ok(info) && info.uuid@ == u.uuid@)),
{
    match found {
        StoreLookup::Absent => Err(AuthError::from_type(AuthErrorType::UserNotExists)),
        StoreLookup::Failed => Err(AuthError::from_type(AuthErrorType::ServerError)),
        StoreLookup::Found(user) => match verify_password(
            login.password.as_str(),
            user.password.as_str(),
        ) {
            Ok(true) => Ok(UserInformation::from_user(user)),
            Ok(false) => Err(AuthError::from_type(AuthErrorType::WrongCredentials)),
            Err(e) => Err(e),
        },
    }
}

} // verus!

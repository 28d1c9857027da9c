//! Account registration and login: the decisions taken between the database
//! calls, password hashing with bcrypt, and issuing the login token.

use vstd::prelude::*;
use crate::auth::{issue_token, jwt_hs256_token};
use crate::text::has_prefix;
use crate::errors::{HttpStatus, Rejection, outcome_view, reject, rejects_with};

verus! {

/// Answer when the user name is already registered.
pub const USERNAME_TAKEN: &'static str = "用户名已存在";

/// Answer when the user name is unknown or the password does not match.
pub const BAD_CREDENTIALS: &'static str = "用户名或密码错误";

/// Answer when the clock cannot give the token's expiry time.
pub const NO_VALID_TIMESTAMP: &'static str = "valid timestamp";

/// The latest instant chrono can represent (`DateTime::<Utc>::MAX_UTC`, the
/// last second of the year 262142), as a Unix timestamp.
pub const LATEST_TIMESTAMP: i64 = 8_210_266_876_799;

/// Hours for which a login token is valid.
pub const TOKEN_LIFETIME_HOURS: i64 = 24;

/// The user name and password of a register or login request.
#[derive(Clone, Debug)]
pub struct UserCredentials {
    pub username: String,
    pub password: String,
}

/// The answer to a successful login.
#[derive(Clone, Debug)]
pub struct LoginResponse {
    pub token: String,
}

/// A registered user as the database returns it.
#[derive(Clone, Debug)]
pub struct StoredUser {
    pub id: i32,
    pub password_hash: String,
}

/// A user to be inserted at registration.
#[derive(Clone, Debug)]
pub struct NewUser {
    pub username: String,
    pub password_hash: String,
}

/// Names what `bcrypt::verify(password, hash)` returns: whether the password
/// matches the hash, or the text of the error (for a malformed hash).
pub uninterp spec fn bcrypt_verify_outcome(password: Seq<char>, hash: Seq<char>) -> Result<bool, Seq<char>>;

/// A character of bcrypt's base64 alphabet.
pub open spec fn is_bcrypt_base64_char(c: char) -> bool {
    c == '.' || c == '/' || ('A' <= c && c <= 'Z') || ('a' <= c && c <= 'z') || ('0' <= c && c <= '9')
}

/// `h` has the form of a bcrypt hash of version 2b at cost 12 (`DEFAULT_COST`):
/// `"$2b$12$"` followed by 53 characters of bcrypt's base64 alphabet (the
/// 22-character salt and the 31-character hash), 60 characters in all.
pub open spec fn is_bcrypt_default_cost_hash(h: Seq<char>) -> bool {
    &&& h.len() == 60
    &&& h.take(7) == "$2b$12$"@
    &&& forall|i: int| 7 <= i < 60 ==> is_bcrypt_base64_char(#[trigger] h[i])
}

/// Start of the text of the only error hashing at the default cost can give:
/// the system's random source failed (`BcryptError::Rand`).
pub const HASH_RANDOMNESS_ERROR: &'static str = "Rand error: ";

/// Calls `bcrypt::hash(password, bcrypt::DEFAULT_COST)`, the error turned into
/// its text. Claimed, as the source shows (`verify` re-hashes the password with
/// the cost and salt read back from the hash and compares): a hash that comes
/// back verifies against the same password, and has the form written by
/// `HashParts::format` (`"$2b$"`, the cost as two digits, `'$'`, then the
/// salt and hash in bcrypt's unpadded base64); and that it fails only when
/// drawing the salt from the system's random source fails (the cost is in
/// range), the error's text then starting with `"Rand error: "`. The salt, and whether the
/// call fails (only when the system's random source does), are left unsaid: the
/// salt is random.
#[verifier::external_body]
fn hash_password(password: &str) -> (r: Result<String, String>)
    ensures
        r matches Ok(h) ==> bcrypt_verify_outcome(password@, h@) matches Ok(true),
        r matches Ok(h) ==> is_bcrypt_default_cost_hash(h@),
        r matches Err(m) ==> has_prefix(m@, HASH_RANDOMNESS_ERROR@),
{
    bcrypt::hash(password, bcrypt::DEFAULT_COST).map_err(|e| e.to_string())
}

/// Calls `bcrypt::verify(password, hash)`, the error turned into its text.
/// Claimed: the outcome is the one named by `bcrypt_verify_outcome`.
#[verifier::external_body]
fn verify_password(password: &str, hash: &str) -> (r: Result<bool, String>)
    ensures
        match r {
            Ok(b) => bcrypt_verify_outcome(password@, hash@) == Ok::<bool, Seq<char>>(b),
            Err(m) => bcrypt_verify_outcome(password@, hash@) == Err::<bool, Seq<char>>(m@),
        },
{
    bcrypt::verify(password, hash).map_err(|e| e.to_string())
}

/// Reads the clock with `chrono::Utc::now()` and adds `chrono::Duration::hours(hours)`
/// with `checked_add_signed`; hands back both instants as Unix timestamps, the
/// second `None` where chrono reports it out of range. Claimed: the second is
/// the first plus `hours` hours, and it is there whenever that sum is no later
/// than chrono's latest instant (`NaiveDateTime::checked_add_signed` fails only
/// past `NaiveDate::MAX`). The time itself is left unsaid.
#[verifier::external_body]
fn now_and_hours_later(hours: i64) -> (r: (i64, Option<i64>))
    requires
        0 <= hours <= 1_000_000,
    ensures
        r.1 matches Some(later) ==> later == r.0 + hours * 3600,
        r.0 + hours * 3600 <= LATEST_TIMESTAMP ==> r.1 is Some,
{
    let now = chrono::Utc::now();
    (now.timestamp(), now.checked_add_signed(chrono::Duration::hours(hours)).map(|t| t.timestamp()))
}

/// Registration, after the database was asked whether the name is taken
/// (`lookup`): a failed lookup is answered 500 with its message, a taken name
/// 400; otherwise the password is hashed (a failure of hashing, which only a
/// failing random source causes, is answered 500 with its text)
/// and the user to insert is returned. The stored hash verifies against the
/// password given and is a bcrypt hash at the default cost.
pub fn register_prepare(credentials: UserCredentials, lookup: Result<bool, String>) -> (r: Result<NewUser, Rejection>)
    ensures
        match lookup {
            Err(e) => rejects_with(r, HttpStatus::InternalServerError, e@),
            Ok(true) => rejects_with(r, HttpStatus::BadRequest, USERNAME_TAKEN@),
            Ok(false) => match r {
                Ok(u) => u.username@ == credentials.username@
                    && bcrypt_verify_outcome(credentials.password@, u.password_hash@) == Ok::<bool, Seq<char>>(true)
                    && is_bcrypt_default_cost_hash(u.password_hash@),
                Err((s, m)) => s == HttpStatus::InternalServerError && has_prefix(m@, HASH_RANDOMNESS_ERROR@),
            },
        },
{
    match lookup {
        Err(e) => Err((HttpStatus::InternalServerError, e)),
        Ok(true) => Err(reject(HttpStatus::BadRequest, USERNAME_TAKEN)),
        Ok(false) => {
            let hashed = hash_password(credentials.password.as_str());
            new_user_from_hash(credentials.username, hashed)
        },
    }
}

/// The user to insert, from the outcome of hashing the password: a failure of
/// hashing is answered 500 with its message.
pub fn new_user_from_hash(username: String, hashed: Result<String, String>) -> (r: Result<NewUser, Rejection>)
    ensures
        match hashed {
            Ok(h) => r matches Ok(u) && u.username@ == username@ && u.password_hash@ == h@,
            Err(e) => rejects_with(r, HttpStatus::InternalServerError, e@),
        },
{
    match hashed {
        Ok(h) => Ok(NewUser { username, password_hash: h }),
        Err(e) => Err((HttpStatus::InternalServerError, e)),
    }
}

/// Registration, after the insert (`inserted`): 201 Created, or 500 with the
/// database's message.
pub fn register_finish(inserted: Result<(), String>) -> (r: Result<HttpStatus, Rejection>)
    ensures
        match inserted {
            Ok(()) => r == Ok::<HttpStatus, Rejection>(HttpStatus::Created),
            Err(e) => rejects_with(r, HttpStatus::InternalServerError, e@),
        },
{
    match inserted {
        Ok(()) => Ok(HttpStatus::Created),
        Err(e) => Err((HttpStatus::InternalServerError, e)),
    }
}

/// What the password check at login decides, from the database lookup and the
/// password given: the user's id, or the refusal.
pub open spec fn login_check_outcome(password: Seq<char>, lookup: Result<Option<StoredUser>, String>) -> Result<
    i32,
    (HttpStatus, Seq<char>),
> {
    match lookup {
        Err(e) => Err((HttpStatus::InternalServerError, e@)),
        Ok(None) => Err((HttpStatus::Unauthorized, BAD_CREDENTIALS@)),
        Ok(Some(u)) => match bcrypt_verify_outcome(password, u.password_hash@) {
            Err(e) => Err((HttpStatus::InternalServerError, e)),
            Ok(false) => Err((HttpStatus::Unauthorized, BAD_CREDENTIALS@)),
            Ok(true) => Ok(u.id),
        },
    }
}

/// Login, after the user was looked up by name (`lookup`): a failed lookup is
/// answered 500, an unknown name 401; the password is checked against the
/// stored hash (an unreadable hash is answered 500, a mismatch 401), and the
/// user's id is returned.
pub fn check_login(password: &str, lookup: Result<Option<StoredUser>, String>) -> (r: Result<i32, Rejection>)
    ensures
        outcome_view(r) == login_check_outcome(password@, lookup),
{
    match lookup {
        Err(e) => Err((HttpStatus::InternalServerError, e)),
        Ok(None) => Err(reject(HttpStatus::Unauthorized, BAD_CREDENTIALS)),
        Ok(Some(u)) => match verify_password(password, u.password_hash.as_str()) {
            Err(e) => Err((HttpStatus::InternalServerError, e)),
            Ok(false) => Err(reject(HttpStatus::Unauthorized, BAD_CREDENTIALS)),
            Ok(true) => Ok(u.id),
        },
    }
}

/// The login answer for user `user_id` given the token's expiry time (`None`
/// where the clock could not give one, answered 500).
pub fn login_response(user_id: i32, expiration: Option<i64>, jwt_secret: &[u8]) -> (r: Result<LoginResponse, Rejection>)
    ensures
        match expiration {
            Some(exp) => r matches Ok(resp) && resp.token@ == jwt_hs256_token(user_id, exp, jwt_secret@),
            None => rejects_with(r, HttpStatus::InternalServerError, NO_VALID_TIMESTAMP@),
        },
{
    match expiration {
        Some(exp) => match issue_token(user_id, exp, jwt_secret) {
            Ok(token) => Ok(LoginResponse { token }),
            Err(e) => Err(e),
        },
        None => Err(reject(HttpStatus::InternalServerError, NO_VALID_TIMESTAMP)),
    }
}

/// Issues the login token for user `user_id`. Returns the answer and the
/// moment of issue read from the clock (Unix seconds): the token expires
/// exactly 24 hours after that moment, and it is issued whenever that expiry
/// is within chrono's range.
pub fn issue_login_token(user_id: i32, jwt_secret: &[u8]) -> (r: (Result<LoginResponse, Rejection>, i64))
    ensures
        match r.0 {
            Ok(resp) => r.1 + TOKEN_LIFETIME_HOURS * 3600 <= i64::MAX && resp.token@ == jwt_hs256_token(
                user_id,
                (r.1 + TOKEN_LIFETIME_HOURS * 3600) as i64,
                jwt_secret@,
            ),
            Err(_) => rejects_with(r.0, HttpStatus::InternalServerError, NO_VALID_TIMESTAMP@),
        },
        r.1 + TOKEN_LIFETIME_HOURS * 3600 <= LATEST_TIMESTAMP ==> r.0 is Ok,
{
    let (now, later) = now_and_hours_later(TOKEN_LIFETIME_HOURS);
    (login_response(user_id, later, jwt_secret), now)
}

/// A password that registration stored the hash of is accepted at login: the
/// login check for that password against that stored user yields the user's id.
pub proof fn registered_password_accepted(password: Seq<char>, id: i32, password_hash: String)
    requires
        bcrypt_verify_outcome(password, password_hash@) == Ok::<bool, Seq<char>>(true),
    ensures
        login_check_outcome(password, Ok(Some(StoredUser { id, password_hash }))) == Ok::<
            i32,
            (HttpStatus, Seq<char>),
        >(id),
{
}

/// The stored hash is never the password itself, unless the password already
/// has the form of a bcrypt hash.
pub proof fn stored_hash_is_not_plain_password(password: Seq<char>, password_hash: Seq<char>)
    requires
        is_bcrypt_default_cost_hash(password_hash),
        !is_bcrypt_default_cost_hash(password),
    ensures
        password_hash != password,
{
}

/// A password other than the one registered, when bcrypt finds it does not
/// match, is refused at login with 401 and the same answer as an unknown name.
pub proof fn wrong_password_refused(password: Seq<char>, id: i32, password_hash: String)
    requires
        bcrypt_verify_outcome(password, password_hash@) == Ok::<bool, Seq<char>>(false),
    ensures
        login_check_outcome(password, Ok(Some(StoredUser { id, password_hash })))
            == login_check_outcome(password, Ok(None)),
{
}

} // verus!

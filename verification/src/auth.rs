//! Bearer-token authentication: reading the `Authorization` header, checking the
//! JSON Web Token it carries, and issuing such tokens at login.

use vstd::prelude::*;
use crate::errors::{HttpStatus, Rejection, reject, rejects_with};
use crate::text::{has_prefix, strip_prefix};

verus! {

/// The scheme word that starts an `Authorization` header carrying a token.
pub const BEARER: &'static str = "Bearer ";

/// Answer when the request carries no bearer token.
pub const MISSING_TOKEN: &'static str = "缺少认证token";

/// Answer when the token does not check out.
pub const INVALID_TOKEN: &'static str = "无效的token";

/// Answer when the shared state cannot be reached from the request.
pub const STATE_UNAVAILABLE: &'static str = "无法访问应用状态";

/// The claims that a token carries: the user's id and the expiry time in
/// seconds since the Unix epoch.
#[derive(Clone, Copy, Debug, PartialEq, Eq, Structural)]
pub struct Claims {
    pub sub: i32,
    pub exp: i64,
}

/// An authenticated caller.
#[derive(Clone, Copy, Debug, PartialEq, Eq, Structural)]
pub struct AuthUser {
    pub user_id: i32,
}

/// Names the token that `jsonwebtoken::encode` produces with `Header::default()`
/// (HS256) for the claims object `{"sub": sub, "exp": exp}`, signed with the
/// HMAC secret `secret`.
pub uninterp spec fn jwt_hs256_token(sub: i32, exp: i64, secret: Seq<u8>) -> Seq<char>;

/// Names what `jsonwebtoken::decode` with `DecodingKey::from_secret(secret)`
/// and `Validation::default()` decides of a token, leaving out only the
/// comparison of its `exp` claim with the clock: `None` when the token does
/// not check out (it is not three `'.'`-separated parts, its header is
/// unreadable or not HS256, its HS256 signature does not verify under
/// `secret`, its payload is not a JSON object, its `exp` claim is missing or
/// not a non-negative integer, or it carries an `aud` claim); otherwise the
/// `sub` and `exp` members of its payload, each read as an `i64` (`None` where
/// absent or not such an integer).
pub uninterp spec fn jwt_checked_claims(token: Seq<char>, secret: Seq<u8>) -> Option<(Option<i64>, Option<i64>)>;

/// Calls `jsonwebtoken::encode` with `Header::default()`, the claims
/// `{"sub": sub, "exp": exp}` (in that order) and `EncodingKey::from_secret(secret)`.
/// Claimed: the result is the token named by `jwt_hs256_token`, which checks
/// out under the same secret and carries back exactly these two members when
/// `exp` is not negative (`decode` reads `exp` as an unsigned number); and the call
/// succeeds, as the source shows for an HMAC key under the HS256 header (the
/// key family matches, a JSON object always serialises, HMAC signing cannot fail).
#[verifier::external_body]
fn encode_claims(sub: i32, exp: i64, secret: &[u8]) -> (r: Result<String, String>)
    ensures
        r is Ok,
        r matches Ok(t) ==> t@ == jwt_hs256_token(sub, exp, secret@),
        r matches Ok(t) ==> (exp >= 0 ==> jwt_checked_claims(t@, secret@) == Some((Some(sub as i64), Some(exp)))),
{
    let mut claims = serde_json::Map::new();
    claims.insert("sub".to_string(), serde_json::Value::from(sub));
    claims.insert("exp".to_string(), serde_json::Value::from(exp));
    let key = jsonwebtoken::EncodingKey::from_secret(secret);
    jsonwebtoken::encode(&jsonwebtoken::Header::default(), &claims, &key).map_err(|e| e.to_string())
}

/// Calls `jsonwebtoken::decode` with `DecodingKey::from_secret(secret)` and
/// `Validation::default()` (HS256 signature, `exp` required and not past, with
/// 60 s leeway), decoding the claims as a JSON value, and hands back the `sub`
/// and `exp` members read as `i64` (`None` where a member is absent or not such
/// an integer); `None` in place of the pair when `decode` fails.
/// Claimed, as the source shows: a token that does not check out under the
/// secret (named by `jwt_checked_claims`) is refused, and an accepted token
/// hands back what that name gives; in particular a token that `encode`
/// produced for `(sub, exp)` under the same secret carries back exactly those
/// members whenever it is accepted. Whether a token that checks out is also
/// unexpired depends on the clock read inside `decode`, so that is left unsaid.
#[verifier::external_body]
fn decode_claim_fields(token: &str, secret: &[u8]) -> (r: Option<(Option<i64>, Option<i64>)>)
    ensures
        jwt_checked_claims(token@, secret@) is None ==> r is None,
        r is Some ==> r == jwt_checked_claims(token@, secret@),
        forall|sub: i32, exp: i64|
            token@ == #[trigger] jwt_hs256_token(sub, exp, secret@) && r is Some
                ==> r == Some((Some(sub as i64), Some(exp))),
{
    let key = jsonwebtoken::DecodingKey::from_secret(secret);
    let validation = jsonwebtoken::Validation::default();
    jsonwebtoken::decode::<serde_json::Value>(token, &key, &validation).ok().map(
        |data| (data.claims.get("sub").and_then(|v| v.as_i64()), data.claims.get("exp").and_then(|v| v.as_i64())),
    )
}

/// The claims that decoded members make up: both present, and `sub` within `i32`.
pub open spec fn claims_from_fields(fields: Option<(Option<i64>, Option<i64>)>) -> Option<Claims> {
    match fields {
        Some((Some(sub), Some(exp))) => if i32::MIN <= sub <= i32::MAX {
            Some(Claims { sub: sub as i32, exp })
        } else {
            None
        },
        _ => None,
    }
}

/// The claims of a token that checks out under the secret, if its members
/// make up claims.
pub open spec fn token_claims(token: Seq<char>, secret: Seq<u8>) -> Option<Claims> {
    claims_from_fields(jwt_checked_claims(token, secret))
}

/// Turns what token decoding handed back into the token's claims, or the
/// invalid-token rejection.
pub fn claims_from_decoded(decoded: Option<(Option<i64>, Option<i64>)>) -> (r: Result<Claims, Rejection>)
    ensures
        match claims_from_fields(decoded) {
            Some(c) => r == Ok::<Claims, Rejection>(c),
            None => rejects_with(r, HttpStatus::Unauthorized, INVALID_TOKEN@),
        },
{
    match decoded {
        Some((Some(sub), Some(exp))) => {
            if i32::MIN as i64 <= sub && sub <= i32::MAX as i64 {
                Ok(Claims { sub: sub as i32, exp })
            } else {
                Err(reject(HttpStatus::Unauthorized, INVALID_TOKEN))
            }
        },
        _ => Err(reject(HttpStatus::Unauthorized, INVALID_TOKEN)),
    }
}

/// The token of an `Authorization` header: the text after `"Bearer "`.
/// A missing header, or one without that prefix, is refused with 401.
pub fn extract_token<'a>(auth_header: Option<&'a str>) -> (r: Result<&'a str, Rejection>)
    ensures
        match auth_header {
            Some(h) => if has_prefix(h@, BEARER@) {
                r matches Ok(t) && t@ == h@.skip(BEARER@.len() as int)
            } else {
                rejects_with(r, HttpStatus::Unauthorized, MISSING_TOKEN@)
            },
            None => rejects_with(r, HttpStatus::Unauthorized, MISSING_TOKEN@),
        },
{
    match auth_header {
        Some(h) => match strip_prefix(h, BEARER) {
            Some(t) => Ok(t),
            None => Err(reject(HttpStatus::Unauthorized, MISSING_TOKEN)),
        },
        None => Err(reject(HttpStatus::Unauthorized, MISSING_TOKEN)),
    }
}

/// Checks a token against the secret and returns its claims. Any failure of the
/// check is refused with 401 and the invalid-token message. Accepted claims are
/// those the token's payload carries; a token issued for `(sub, exp)` under
/// this secret, when accepted, yields exactly those claims.
pub fn validate_token(token: &str, jwt_secret: &[u8]) -> (r: Result<Claims, Rejection>)
    ensures
        r is Err ==> rejects_with(r, HttpStatus::Unauthorized, INVALID_TOKEN@),
        r matches Ok(c) ==> token_claims(token@, jwt_secret@) == Some(c),
        token_claims(token@, jwt_secret@) is None ==> r is Err,
        forall|sub: i32, exp: i64|
            token@ == #[trigger] jwt_hs256_token(sub, exp, jwt_secret@) && r is Ok
                ==> r == Ok::<Claims, Rejection>(Claims { sub, exp }),
{
    let decoded = decode_claim_fields(token, jwt_secret);
    claims_from_decoded(decoded)
}

/// The header that carries `token` as a bearer token.
pub open spec fn bearer_header(token: Seq<char>) -> Seq<char> {
    BEARER@ + token
}

/// Authenticates a request from its `Authorization` header: the bearer token
/// must be present (else 401, missing token) and valid under the secret (else
/// 401, invalid token; in particular a token whose signature does not verify
/// under the secret); the caller is the subject that the token carries. A header carrying a
/// token issued for user `sub` under this secret authenticates `sub` or is
/// refused as invalid, never anyone else.
pub fn authenticate(auth_header: Option<&str>, jwt_secret: &[u8]) -> (r: Result<AuthUser, Rejection>)
    ensures
        match auth_header {
            Some(h) => if has_prefix(h@, BEARER@) {
                r is Ok || rejects_with(r, HttpStatus::Unauthorized, INVALID_TOKEN@)
            } else {
                rejects_with(r, HttpStatus::Unauthorized, MISSING_TOKEN@)
            },
            None => rejects_with(r, HttpStatus::Unauthorized, MISSING_TOKEN@),
        },
        r matches Ok(u) ==> (auth_header is Some && token_claims(
            auth_header->0@.skip(BEARER@.len() as int),
            jwt_secret@,
        ) is Some && token_claims(auth_header->0@.skip(BEARER@.len() as int), jwt_secret@)->0.sub == u.user_id),
        auth_header is Some && token_claims(auth_header->0@.skip(BEARER@.len() as int), jwt_secret@) is None
            ==> r is Err,
        forall|sub: i32, exp: i64|
            auth_header is Some && auth_header->0@ == bearer_header(#[trigger] jwt_hs256_token(sub, exp, jwt_secret@))
                && r is Ok ==> r == Ok::<AuthUser, Rejection>(AuthUser { user_id: sub }),
{
    let token = match extract_token(auth_header) {
        Ok(t) => t,
        Err(e) => return Err(e),
    };
    proof {
        assert forall|sub: i32, exp: i64|
            auth_header is Some && auth_header->0@ == bearer_header(#[trigger] jwt_hs256_token(sub, exp, jwt_secret@))
            implies token@ == jwt_hs256_token(sub, exp, jwt_secret@) by {
            let h = auth_header.unwrap();
            assert(h@.skip(BEARER@.len() as int) =~= jwt_hs256_token(sub, exp, jwt_secret@));
        }
    }
    let claims = match validate_token(token, jwt_secret) {
        Ok(c) => c,
        Err(e) => return Err(e),
    };
    Ok(AuthUser { user_id: claims.sub })
}

/// Authenticates a request whose shared state is looked up first: without the
/// state's token secret the request is refused with 500, otherwise as
/// `authenticate` decides.
pub fn authenticate_with_state(jwt_secret: Option<&[u8]>, auth_header: Option<&str>) -> (r: Result<AuthUser, Rejection>)
    ensures
        jwt_secret is None ==> rejects_with(r, HttpStatus::InternalServerError, STATE_UNAVAILABLE@),
        jwt_secret matches Some(s) ==> match auth_header {
            Some(h) => if has_prefix(h@, BEARER@) {
                r is Ok || rejects_with(r, HttpStatus::Unauthorized, INVALID_TOKEN@)
            } else {
                rejects_with(r, HttpStatus::Unauthorized, MISSING_TOKEN@)
            },
            None => rejects_with(r, HttpStatus::Unauthorized, MISSING_TOKEN@),
        },
        r matches Ok(u) ==> (jwt_secret is Some && auth_header is Some && token_claims(
            auth_header->0@.skip(BEARER@.len() as int),
            jwt_secret->0@,
        ) is Some && token_claims(auth_header->0@.skip(BEARER@.len() as int), jwt_secret->0@)->0.sub
            == u.user_id),
        jwt_secret is Some && auth_header is Some && token_claims(
            auth_header->0@.skip(BEARER@.len() as int),
            jwt_secret->0@,
        ) is None ==> r is Err,
        forall|sub: i32, exp: i64|
            jwt_secret is Some && auth_header is Some
                && auth_header->0@ == bearer_header(#[trigger] jwt_hs256_token(sub, exp, jwt_secret->0@))
                && r is Ok ==> r == Ok::<AuthUser, Rejection>(AuthUser { user_id: sub }),
{
    match jwt_secret {
        Some(s) => authenticate(auth_header, s),
        None => Err(reject(HttpStatus::InternalServerError, STATE_UNAVAILABLE)),
    }
}

/// Issues the token for user `user_id` expiring at `exp`, signed with the secret.
pub fn issue_token(user_id: i32, exp: i64, jwt_secret: &[u8]) -> (r: Result<String, Rejection>)
    ensures
        r matches Ok(t) && t@ == jwt_hs256_token(user_id, exp, jwt_secret@),
{
    match encode_claims(user_id, exp, jwt_secret) {
        Ok(t) => Ok(t),
        Err(e) => Err((HttpStatus::InternalServerError, e)),
    }
}

} // verus!

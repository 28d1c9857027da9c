//! The state shared by all handlers: the database pool and the secret that
//! signs login tokens.

use vstd::prelude::*;
use std::sync::Arc;
use crate::text::{is_ascii_alphanumeric, push_char};

verus! {

/// Number of characters of the token-signing secret.
pub const JWT_SECRET_LEN: usize = 32;

/// State shared by all handlers. `Db` is the database pool, which the
/// handlers' logic only carries through to the database calls.
#[derive(Clone, Debug)]
pub struct AppState<Db> {
    pub db: Arc<Db>,
    pub jwt_secret: String,
}

/// Draws one character with `rand::thread_rng()` from the `Alphanumeric`
/// distribution and converts it with `char::from`. Claimed, as the crate's
/// documentation and source show: the character is an ASCII letter or digit.
/// Which one comes out is left unsaid: it is random.
#[verifier::external_body]
fn random_alphanumeric() -> (c: char)
    ensures
        is_ascii_alphanumeric(c),
{
    char::from(rand::Rng::sample(&mut rand::thread_rng(), rand::distributions::Alphanumeric))
}

/// A fresh random secret of `len` ASCII letters and digits.
pub fn random_secret(len: usize) -> (s: String)
    ensures
        s@.len() == len,
        forall|i: int| 0 <= i < s@.len() ==> is_ascii_alphanumeric(#[trigger] s@[i]),
{
    let mut s = String::new();
    let mut n: usize = 0;
    while n < len
        invariant
            n <= len,
            s@.len() == n,
            forall|i: int| 0 <= i < s@.len() ==> is_ascii_alphanumeric(#[trigger] s@[i]),
        decreases len - n,
    {
        let c = random_alphanumeric();
        push_char(&mut s, c);
        n = n + 1;
    }
    s
}

impl<Db> AppState<Db> {
    /// The state over this pool, with a fresh random secret of 32 ASCII letters
    /// and digits for signing tokens.
    pub fn new(db: Db) -> (s: Self)
        ensures
            *s.db == db,
            s.jwt_secret@.len() == JWT_SECRET_LEN,
            forall|i: int| 0 <= i < s.jwt_secret@.len() ==> is_ascii_alphanumeric(#[trigger] s.jwt_secret@[i]),
    {
        AppState { db: Arc::new(db), jwt_secret: random_secret(JWT_SECRET_LEN) }
    }
}

} // verus!

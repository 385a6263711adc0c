//! Identity resolution: maps an opaque bearer token to a resolved user
//! context. The placeholder scheme accepts any token that parses as a
//! 64-bit integer.

use crate::decimal::parse_i64;
use crate::decimal::parse_i64_str;
use crate::model::Db;
use vstd::prelude::*;

verus! {

/// A per-request resolved identity; never persisted.
#[derive(Debug, Clone, Copy)]
pub struct UserCtx {
    pub user_id: i64,
}

/// An identity resolution failure.
#[derive(Debug)]
pub enum Error {
    /// The token does not resolve to an identity; holds the original token.
    InvalidToken(String),
}

/// Resolves a bearer token to a user context: the token must parse as a
/// 64-bit integer, which becomes the user id. The store handle is accepted
/// as a capability only; this placeholder scheme never reads it.
pub fn utx_from_token(_db: &Db, token: &str) -> (r: Result<UserCtx, Error>)
    ensures
        match r {
            Ok(u) => parse_i64(token@) == Some(u.user_id as int),
            Err(Error::InvalidToken(t)) => parse_i64(token@) is None && t@ == token@,
        },
{
    match parse_i64_str(token) {
        Some(user_id) => Ok(UserCtx { user_id }),
        None => Err(Error::InvalidToken(token.to_owned())),
    }
}

} // verus!

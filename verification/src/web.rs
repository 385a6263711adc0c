//! The request handling core: per-request identity resolution, dispatch to
//! the access controller, and the mapping from domain errors to HTTP status
//! codes. The transport itself (routing syntax, JSON envelopes) sits
//! outside; it hands a routed request in and a status with a payload out.

use crate::decimal::parse_i64;
use crate::model::db::lookup;
use crate::model::db::patch_id;
use crate::model::db::remove_id;
use crate::model::grocery::apply_patch;
use crate::model::grocery::create_accepted;
use crate::model::grocery::new_row;
use crate::model::Db;
use crate::model::Error;
use crate::model::Grocery;
use crate::model::GroceryMac;
use crate::model::GroceryPatch;
use crate::security::utx_from_token;
use vstd::prelude::*;

verus! {

/// A request already routed to one controller operation, with its
/// path and body parameters extracted.
#[derive(Debug)]
pub enum Request {
    List,
    Get(i64),
    Create(GroceryPatch),
    Update(i64, GroceryPatch),
    Delete(i64),
}

/// The payload of a successful response envelope.
#[derive(Debug)]
pub enum ReplyData {
    One(Grocery),
    Many(Vec<Grocery>),
}

/// What goes back to the transport: an HTTP status code, and the payload
/// when the operation succeeded. Error detail is never placed in the body.
#[derive(Debug)]
pub struct Reply {
    pub status: u16,
    pub data: Option<ReplyData>,
}

/// The status a domain error surfaces as: a not-found is 404-equivalent,
/// any other (storage-shaped) failure a generic 500-equivalent.
pub open spec fn spec_error_status(e: Error) -> u16 {
    match e {
        Error::EntityNotFound(_, _) => 404,
        Error::StorageError(_) => 500,
    }
}

/// Maps a domain error to the HTTP status it surfaces as.
pub fn error_status(e: &Error) -> (s: u16)
    ensures
        s == spec_error_status(*e),
{
    match e {
        Error::EntityNotFound(_, _) => 404,
        Error::StorageError(_) => 500,
    }
}

/// Whether a bearer token resolves to an identity.
pub open spec fn authorized(token: Seq<char>) -> bool {
    parse_i64(token) is Some
}

/// The user id an authorized token resolves to.
pub open spec fn token_user_id(token: Seq<char>) -> int {
    parse_i64(token).unwrap()
}

/// Handles one routed request: resolves the identity (short-circuiting to a
/// 401-equivalent), invokes the controller, and wraps the outcome. The
/// store is touched only by an authorized create, update or delete.
pub fn handle_request(db: &mut Db, token: &str, req: Request) -> (r: Reply)
    requires
        old(db).wf(),
    ensures
        final(db).wf(),
        !authorized(token@) ==> r.status == 401 && r.data is None && *final(db) == *old(db),
        authorized(token@) ==> match req {
            Request::List => {
                &&& r.status == 200
                &&& r.data matches Some(ReplyData::Many(v)) && v@ == old(db).rows@
                &&& *final(db) == *old(db)
            },
            Request::Get(id) => {
                &&& *final(db) == *old(db)
                &&& match lookup(old(db).rows@, id) {
                    Some(g) => r.status == 200 && r.data == Some(ReplyData::One(g)),
                    None => r.status == 404 && r.data is None,
                }
            },
            Request::Create(p) => {
                if create_accepted(old(db).next_id, p) {
                    let g = new_row(old(db).next_id, token_user_id(token@) as i64, p);
                    &&& r.status == 200
                    &&& r.data == Some(ReplyData::One(g))
                    &&& final(db).rows@ == seq![g] + old(db).rows@
                    &&& final(db).next_id == old(db).next_id + 1
                } else {
                    &&& r.status == 500 && r.data is None
                    &&& *final(db) == *old(db)
                }
            },
            Request::Update(id, p) => {
                match lookup(old(db).rows@, id) {
                    Some(row0) => {
                        &&& r.status == 200
                        &&& r.data == Some(ReplyData::One(apply_patch(row0, p)))
                        &&& final(db).rows@ == patch_id(old(db).rows@, id, p)
                    },
                    None => r.status == 404 && r.data is None && *final(db) == *old(db),
                }
            },
            Request::Delete(id) => {
                match lookup(old(db).rows@, id) {
                    Some(row0) => {
                        &&& r.status == 200
                        &&& r.data == Some(ReplyData::One(row0))
                        &&& final(db).rows@ == remove_id(old(db).rows@, id)
                    },
                    None => r.status == 404 && r.data is None && *final(db) == *old(db),
                }
            },
        },
{
    let utx = match utx_from_token(db, token) {
        Ok(u) => u,
        Err(_) => {
            return Reply { status: 401, data: None };
        },
    };
    match req {
        Request::List => match GroceryMac::list(db, &utx) {
            Ok(v) => Reply { status: 200, data: Some(ReplyData::Many(v)) },
            Err(e) => Reply { status: error_status(&e), data: None },
        },
        Request::Get(id) => match GroceryMac::get(db, &utx, id) {
            Ok(g) => Reply { status: 200, data: Some(ReplyData::One(g)) },
            Err(e) => Reply { status: error_status(&e), data: None },
        },
        Request::Create(p) => match GroceryMac::create(db, &utx, p) {
            Ok(g) => Reply { status: 200, data: Some(ReplyData::One(g)) },
            Err(e) => Reply { status: error_status(&e), data: None },
        },
        Request::Update(id, p) => match GroceryMac::update(db, &utx, id, p) {
            Ok(g) => Reply { status: 200, data: Some(ReplyData::One(g)) },
            Err(e) => Reply { status: error_status(&e), data: None },
        },
        Request::Delete(id) => match GroceryMac::delete(db, &utx, id) {
            Ok(g) => Reply { status: 200, data: Some(ReplyData::One(g)) },
            Err(e) => Reply { status: error_status(&e), data: None },
        },
    }
}

} // verus!

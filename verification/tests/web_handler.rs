//! End-to-end scenarios through the request handling core, over the seed
//! fixture (rows 100 banana/25/Basket and 101 orange/50/Shelf).

use grocery_backend::model::init_db;
use grocery_backend::model::GroceryPatch;
use grocery_backend::model::GroceryStatus;
use grocery_backend::web::handle_request;
use grocery_backend::web::Reply;
use grocery_backend::web::ReplyData;
use grocery_backend::web::Request;

fn one(reply: Reply) -> grocery_backend::model::Grocery {
    match reply.data {
        Some(ReplyData::One(g)) => g,
        other => panic!("expected a single row, got {:?}", other),
    }
}

fn many(reply: Reply) -> Vec<grocery_backend::model::Grocery> {
    match reply.data {
        Some(ReplyData::Many(v)) => v,
        other => panic!("expected a row list, got {:?}", other),
    }
}

#[test]
fn handler_list() {
    let mut db = init_db();
    let reply = handle_request(&mut db, "123", Request::List);
    assert_eq!(200, reply.status, "http status");
    let groceries = many(reply);
    assert_eq!(2, groceries.len(), "number of groceries");
    assert_eq!(101, groceries[0].id);
    assert_eq!("orange", groceries[0].name);
    assert_eq!(GroceryStatus::Shelf, groceries[0].status);
    assert_eq!(100, groceries[1].id);
    assert_eq!(GroceryStatus::Basket, groceries[1].status);
}

#[test]
fn handler_get_ok() {
    let mut db = init_db();
    let reply = handle_request(&mut db, "123", Request::Get(100));
    assert_eq!(200, reply.status, "http status");
    let grocery = one(reply);
    assert_eq!(100, grocery.id);
    assert_eq!("banana", grocery.name);
    assert_eq!(25, grocery.cost);
    assert_eq!(GroceryStatus::Basket, grocery.status);
}

#[test]
fn handler_get_wrong_id() {
    let mut db = init_db();
    let reply = handle_request(&mut db, "123", Request::Get(999));
    assert_eq!(404, reply.status, "http status");
    assert!(reply.data.is_none());
}

#[test]
fn handler_create_ok() {
    let mut db = init_db();
    let patch = GroceryPatch {
        name: Some("kiwi".to_string()),
        cost: Some(0),
        ..Default::default()
    };
    let reply = handle_request(&mut db, "123", Request::Create(patch));
    assert_eq!(200, reply.status, "http status");
    let grocery = one(reply);
    assert!(grocery.id >= 1000, "grocery.id should be >= to 1000");
    assert_eq!("kiwi", grocery.name);
    assert_eq!(0, grocery.cost);
    assert_eq!(GroceryStatus::Shelf, grocery.status);
    assert_eq!(123, grocery.cid);
}

#[test]
fn handler_update_ok() {
    let mut db = init_db();
    let patch = GroceryPatch {
        name: Some("banana2".to_string()),
        cost: Some(999),
        ..Default::default()
    };
    let reply = handle_request(&mut db, "123", Request::Update(100, patch));
    assert_eq!(200, reply.status, "http status");
    let grocery = one(reply);
    assert_eq!(100, grocery.id);
    assert_eq!("banana2", grocery.name);
    assert_eq!(999, grocery.cost);
    // the patch left status unset, so it stays as it was
    assert_eq!(GroceryStatus::Basket, grocery.status);
}

#[test]
fn handler_delete_ok() {
    let mut db = init_db();
    let reply = handle_request(&mut db, "123", Request::Delete(100));
    assert_eq!(200, reply.status, "http status");
    let grocery = one(reply);
    assert_eq!(100, grocery.id);
    assert_eq!("banana", grocery.name);
    assert_eq!(25, grocery.cost);
    assert_eq!(GroceryStatus::Basket, grocery.status);

    let reply = handle_request(&mut db, "123", Request::List);
    let groceries = many(reply);
    assert_eq!(1, groceries.len(), "groceries length");
    assert_eq!(101, groceries[0].id, "Grocery remaining should be 101");
}

#[test]
fn handler_rejects_bad_token() {
    let mut db = init_db();
    let reply = handle_request(&mut db, "not-a-number", Request::List);
    assert_eq!(401, reply.status, "http status");
    assert!(reply.data.is_none());
}

#[test]
fn handler_create_without_name_is_storage_error() {
    let mut db = init_db();
    let patch = GroceryPatch {
        cost: Some(5),
        ..Default::default()
    };
    let reply = handle_request(&mut db, "123", Request::Create(patch));
    assert_eq!(500, reply.status, "http status");
    assert!(reply.data.is_none());

    // nothing was inserted
    let reply = handle_request(&mut db, "123", Request::List);
    assert_eq!(2, many(reply).len());
}

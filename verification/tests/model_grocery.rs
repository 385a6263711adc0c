use grocery_backend::model::init_db;
use grocery_backend::model::Error;
use grocery_backend::model::GroceryMac;
use grocery_backend::model::GroceryPatch;
use grocery_backend::model::GroceryStatus;
use grocery_backend::security::utx_from_token;

/// Test grocery create
#[test]
fn model_grocery_create() {
    // -- FIXTURE
    let mut db = init_db();
    let utx = utx_from_token(&db, "123").unwrap();
    let data_fx = GroceryPatch {
        name: Some("test - model_grocery_create 1".to_string()),
        cost: Some(0),
        ..Default::default()
    };

    // -- ACTION
    let grocery_created = GroceryMac::create(&mut db, &utx, data_fx.clone()).unwrap();

    // -- CHECK
    assert!(grocery_created.id >= 1000, "Id should be >= 1000");
    assert_eq!(data_fx.name.unwrap(), grocery_created.name);
    assert_eq!(GroceryStatus::Shelf, grocery_created.status);
}

/// Test grocery get ok
#[test]
fn model_grocery_get_ok() {
    // -- FIXTURE
    let db = init_db();
    let utx = utx_from_token(&db, "123").unwrap();

    // -- ACTION
    let grocery = GroceryMac::get(&db, &utx, 100).unwrap();

    // -- CHECK
    assert_eq!(100, grocery.id);
    assert_eq!("banana", grocery.name);
    assert_eq!(GroceryStatus::Basket, grocery.status);
}

/// Test grocery get wrong id
#[test]
fn model_grocery_get_wrong_id() {
    // -- FIXTURE
    let db = init_db();
    let utx = utx_from_token(&db, "123").unwrap();

    // -- ACTION
    let result = GroceryMac::get(&db, &utx, 999);

    // -- CHECK
    match result {
        Ok(_) => panic!("Should not succeed"),
        Err(Error::EntityNotFound(typ, id)) => {
            assert_eq!("groceries", typ);
            assert_eq!(999.to_string(), id);
        }
        other_error => panic!("Wrong Error {:?} ", other_error),
    }
}

/// Test grocery list
#[test]
fn model_grocery_list() {
    // -- FIXTURE
    let db = init_db();
    let utx = utx_from_token(&db, "123").unwrap();

    // -- ACTION
    let groceries = GroceryMac::list(&db, &utx).unwrap();

    // -- CHECK
    assert_eq!(2, groceries.len());
    // grocery 101
    assert_eq!(101, groceries[0].id);
    assert_eq!(123, groceries[0].cid);
    assert_eq!("orange", groceries[0].name);
    assert_eq!(50, groceries[0].cost);
    assert_eq!(GroceryStatus::Shelf, groceries[0].status);
    // grocery 100
    assert_eq!(100, groceries[1].id);
    assert_eq!(123, groceries[1].cid);
    assert_eq!("banana", groceries[1].name);
    assert_eq!(25, groceries[1].cost);
    assert_eq!(GroceryStatus::Basket, groceries[1].status);
}

/// Test grocery update
#[test]
fn model_grocery_update_ok() {
    // -- FIXTURE
    let mut db = init_db();
    let utx = utx_from_token(&db, "123").unwrap();
    let data_fx = GroceryPatch {
        name: Some("test - model_grocery_update_ok 1".to_string()),
        cost: Some(100),
        ..Default::default()
    };
    let grocery_fx = GroceryMac::create(&mut db, &utx, data_fx.clone()).unwrap();
    let update_data_fx = GroceryPatch {
        name: Some("test - model_grocery_update_ok 2".to_string()),
        cost: Some(999),
        ..Default::default()
    };

    // -- ACTION
    let grocery_updated =
        GroceryMac::update(&mut db, &utx, grocery_fx.id, update_data_fx.clone()).unwrap();

    // -- CHECK
    let groceries = GroceryMac::list(&db, &utx).unwrap();
    assert_eq!(3, groceries.len());
    assert_eq!(grocery_fx.id, grocery_updated.id);
    assert_eq!(update_data_fx.name.unwrap(), grocery_updated.name);
}

/// Test grocery delete
#[test]
fn model_grocery_delete_simple() {
    // -- FIXTURE
    let mut db = init_db();
    let utx = utx_from_token(&db, "123").unwrap();

    // -- ACTION
    let grocery = GroceryMac::delete(&mut db, &utx, 100).unwrap();

    // -- CHECK - deleted item
    assert_eq!(100, grocery.id);
    assert_eq!("banana", grocery.name);

    // -- CHECK - list
    let groceries = GroceryMac::list(&db, &utx).unwrap();
    assert_eq!(1, groceries.len());
}

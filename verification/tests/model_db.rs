use grocery_backend::model::init_db;
use grocery_backend::model::GroceryMac;
use grocery_backend::security::utx_from_token;

/// Test model DB initialize
#[test]
fn model_db_init_db() {
    // ACTION
    let db = init_db();

    // CHECK
    let utx = utx_from_token(&db, "123").unwrap();
    let result = GroceryMac::list(&db, &utx).unwrap();
    assert_eq!(2, result.len(), "number of seed groceries");
}

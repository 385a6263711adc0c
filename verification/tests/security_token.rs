//! Identity resolution from bearer tokens.

use grocery_backend::model::init_db;
use grocery_backend::security::utx_from_token;
use grocery_backend::security::Error;

#[test]
fn token_resolves_to_user_id() {
    let db = init_db();
    let utx = utx_from_token(&db, "123").unwrap();
    assert_eq!(123, utx.user_id);

    let utx = utx_from_token(&db, "-7").unwrap();
    assert_eq!(-7, utx.user_id);
}

#[test]
fn malformed_token_is_invalid() {
    let db = init_db();
    for bad in ["", "abc", "12.5", "123abc", " 123"] {
        match utx_from_token(&db, bad) {
            Err(Error::InvalidToken(t)) => assert_eq!(bad, t),
            Ok(_) => panic!("token {:?} should not resolve", bad),
        }
    }
}

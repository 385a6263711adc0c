//! The data model: the grocery entity, the table behind the access
//! controller, and the domain error taxonomy.

pub mod db;
pub mod grocery;

pub use db::init_db;
pub use db::Db;
pub use grocery::Grocery;
pub use grocery::GroceryMac;
pub use grocery::GroceryPatch;
pub use grocery::GroceryStatus;

use crate::model::db::StoreError;
use vstd::prelude::*;

verus! {

/// A domain-level failure of the access controller.
#[derive(Debug)]
pub enum Error {
    /// A single-row operation matched no row; holds the entity type name and
    /// the id that was asked for, rendered in decimal.
    EntityNotFound(String, String),
    /// Any other store failure, wrapping the underlying cause.
    StorageError(StoreError),
}

} // verus!

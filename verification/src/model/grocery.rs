//! The grocery entity, its partial-update patch, and the access controller
//! that mediates between request handlers and the store.

use crate::decimal::dec_str_i64;
use crate::decimal::i64_to_string;
use crate::model::db::lookup;
use crate::model::db::patch_id;
use crate::model::db::remove_id;
use crate::model::db::Db;
use crate::model::db::StoreError;
use crate::model::Error;
use crate::security::UserCtx;
use vstd::prelude::*;

verus! {

/// A persisted grocery row.
#[derive(Debug)]
pub struct Grocery {
    pub id: i64,
    /// Creator id: the identity that created the row, never client-supplied.
    pub cid: i64,
    pub cost: i64,
    pub name: String,
    pub status: GroceryStatus,
}

impl Clone for Grocery {
    fn clone(&self) -> (r: Self)
        ensures
            r == *self,
    {
        Grocery {
            id: self.id,
            cid: self.cid,
            cost: self.cost,
            name: self.name.clone(),
            status: self.status,
        }
    }
}

/// The shelf/basket state of a grocery row.
#[derive(Debug, Clone, Copy, PartialEq, Eq, Structural)]
pub enum GroceryStatus {
    Shelf,
    Basket,
}

/// A partial-update payload. An unset field means "leave unchanged" for
/// update; for create the store supplies the status default instead. There
/// is deliberately no creator field here: the creator id always comes from
/// the resolved identity.
#[derive(Debug)]
pub struct GroceryPatch {
    pub cost: Option<i64>,
    pub name: Option<String>,
    pub status: Option<GroceryStatus>,
}

impl Clone for GroceryPatch {
    fn clone(&self) -> (r: Self)
        ensures
            r == *self,
    {
        GroceryPatch {
            cost: self.cost,
            name: match &self.name {
                Some(n) => Some(n.clone()),
                None => None,
            },
            status: self.status,
        }
    }
}

impl Default for GroceryPatch {
    /// The all-unset patch.
    fn default() -> (r: Self)
        ensures
            r.cost is None,
            r.name is None,
            r.status is None,
    {
        GroceryPatch { cost: None, name: None, status: None }
    }
}

/// The row as it stands after a patch is applied: a set field replaces the
/// stored value, an unset field leaves it unchanged; id and creator are
/// untouchable.
pub open spec fn apply_patch(g: Grocery, p: GroceryPatch) -> Grocery {
    Grocery {
        id: g.id,
        cid: g.cid,
        cost: if p.cost is Some {
            p.cost->0
        } else {
            g.cost
        },
        name: if p.name is Some {
            p.name->0
        } else {
            g.name
        },
        status: if p.status is Some {
            p.status->0
        } else {
            g.status
        },
    }
}

/// Whether the store accepts an insert built from this patch: the two
/// columns without a store default must be present, and an id must be left
/// to assign.
pub open spec fn create_accepted(next_id: i64, p: GroceryPatch) -> bool {
    p.name is Some && p.cost is Some && next_id < i64::MAX
}

/// The row the store assembles for an accepted insert: the assigned id, the
/// creator from the resolved identity, the patch's fields, and the status
/// default `Shelf` where the patch leaves it unset.
pub open spec fn new_row(id: i64, cid: i64, p: GroceryPatch) -> Grocery {
    Grocery {
        id: id,
        cid: cid,
        cost: p.cost->0,
        name: p.name->0,
        status: if p.status is Some {
            p.status->0
        } else {
            GroceryStatus::Shelf
        },
    }
}

/// The grocery model access controller: the typed data-access API between
/// the request handlers and the store.
pub struct GroceryMac;

impl GroceryMac {
    /// Creates a new grocery row from the fields present in the patch. The
    /// creator id is always taken from the resolved identity — the patch has
    /// no creator field to take it from. Returns the full row as stored,
    /// with the store-assigned id and the defaulted status.
    pub fn create(db: &mut Db, utx: &UserCtx, data: GroceryPatch) -> (r: Result<Grocery, Error>)
        requires
            old(db).wf(),
        ensures
            final(db).wf(),
            r is Ok <==> create_accepted(old(db).next_id, data),
            match r {
                Ok(g) => {
                    &&& g == new_row(old(db).next_id, utx.user_id, data)
                    &&& g.cid == utx.user_id && g.id == old(db).next_id
                    &&& final(db).rows@ == seq![g] + old(db).rows@
                    &&& final(db).next_id == old(db).next_id + 1
                },
                Err(e) => *final(db) == *old(db) && e is StorageError,
            },
    {
        match db.insert_returning(data, utx.user_id) {
            Ok(g) => Ok(g),
            Err(e) => Err(Error::StorageError(e)),
        }
    }

    /// Fetches exactly the row carrying `id`, or reports that no row does.
    pub fn get(db: &Db, _utx: &UserCtx, id: i64) -> (r: Result<Grocery, Error>)
        ensures
            r is Ok <==> lookup(db.rows@, id) is Some,
            match r {
                Ok(g) => lookup(db.rows@, id) == Some(g),
                Err(e) => e matches Error::EntityNotFound(t, i) && t@ == "groceries"@ && i@
                    == dec_str_i64(id as int),
            },
    {
        let result = db.fetch_one_by_id(id);
        handle_fetch_one_result(result, "groceries", id)
    }

    /// Returns every grocery row, ordered by id descending; current scope
    /// does not filter by creator.
    pub fn list(db: &Db, _utx: &UserCtx) -> (r: Result<Vec<Grocery>, Error>)
        requires
            db.wf(),
        ensures
            match r {
                Ok(v) => v@ == db.rows@ && forall|i: int, j: int|
                    0 <= i < j < v@.len() ==> v@[i].id > v@[j].id,
                Err(_) => false,
            },
    {
        Ok(db.fetch_all_desc())
    }

    /// Applies only the fields present in the patch to the row carrying
    /// `id` and returns the post-update row, or reports that no row does.
    pub fn update(db: &mut Db, _utx: &UserCtx, id: i64, data: GroceryPatch) -> (r: Result<
        Grocery,
        Error,
    >)
        requires
            old(db).wf(),
        ensures
            final(db).wf(),
            final(db).next_id == old(db).next_id,
            r is Ok <==> lookup(old(db).rows@, id) is Some,
            match r {
                Ok(g) => {
                    &&& lookup(old(db).rows@, id) matches Some(row0) && g == apply_patch(row0, data)
                    &&& final(db).rows@ == patch_id(old(db).rows@, id, data)
                },
                Err(e) => {
                    &&& e matches Error::EntityNotFound(t, i) && t@ == "groceries"@ && i@
                        == dec_str_i64(id as int)
                    &&& *final(db) == *old(db)
                },
            },
    {
        let result = db.update_returning(id, data);
        handle_fetch_one_result(result, "groceries", id)
    }

    /// Removes the row carrying `id` and returns its last state before
    /// removal, or reports that no row does.
    pub fn delete(db: &mut Db, _utx: &UserCtx, id: i64) -> (r: Result<Grocery, Error>)
        requires
            old(db).wf(),
        ensures
            final(db).wf(),
            final(db).next_id == old(db).next_id,
            r is Ok <==> lookup(old(db).rows@, id) is Some,
            match r {
                Ok(g) => {
                    &&& lookup(old(db).rows@, id) == Some(g)
                    &&& final(db).rows@ == remove_id(old(db).rows@, id)
                },
                Err(e) => {
                    &&& e matches Error::EntityNotFound(t, i) && t@ == "groceries"@ && i@
                        == dec_str_i64(id as int)
                    &&& *final(db) == *old(db)
                },
            },
    {
        let result = db.delete_returning(id);
        handle_fetch_one_result(result, "groceries", id)
    }
}

/// Translates a store outcome into the domain vocabulary: the store's "no
/// rows" signal becomes `EntityNotFound` with the entity type and the id;
/// any other store failure passes through as an opaque `StorageError`.
fn handle_fetch_one_result(result: Result<Grocery, StoreError>, typ: &str, id: i64) -> (r: Result<
    Grocery,
    Error,
>)
    ensures
        match result {
            Ok(g) => r matches Ok(g2) && g2 == g,
            Err(StoreError::RowNotFound) => r matches Err(Error::EntityNotFound(t, i)) && t@ == typ@
                && i@ == dec_str_i64(id as int),
            Err(e) => r matches Err(Error::StorageError(e2)) && e2 == e,
        },
{
    match result {
        Ok(g) => Ok(g),
        Err(StoreError::RowNotFound) => Err(
            Error::EntityNotFound(typ.to_owned(), i64_to_string(id)),
        ),
        Err(e) => Err(Error::StorageError(e)),
    }
}

/// Patch semantics of update: a patch that sets only `cost` replaces the
/// cost and leaves name, status, id and creator at their prior values.
pub proof fn lemma_patch_only_cost(g: Grocery, p: GroceryPatch)
    requires
        p.cost is Some,
        p.name is None,
        p.status is None,
    ensures
        apply_patch(g, p).cost == p.cost->0,
        apply_patch(g, p).name == g.name,
        apply_patch(g, p).status == g.status,
        apply_patch(g, p).id == g.id,
        apply_patch(g, p).cid == g.cid,
{
}

/// Creator immutability: the row assembled for an insert takes its creator
/// from the resolved identity alone — every patch yields the same creator.
pub proof fn lemma_create_creator_from_identity(
    id: i64,
    cid: i64,
    p1: GroceryPatch,
    p2: GroceryPatch,
)
    ensures
        new_row(id, cid, p1).cid == cid,
        new_row(id, cid, p1).cid == new_row(id, cid, p2).cid,
{
}

/// Round trip: after an accepted create, looking the assigned id up in the
/// new table yields exactly the created row — the patch's name and cost,
/// and the `Shelf` default when the patch left status unset.
pub proof fn lemma_create_round_trip(db: Db, cid: i64, p: GroceryPatch)
    requires
        db.wf(),
        create_accepted(db.next_id, p),
    ensures
        ({
            let g = new_row(db.next_id, cid, p);
            &&& lookup(seq![g] + db.rows@, g.id) == Some(g)
            &&& g.name == p.name->0
            &&& g.cost == p.cost->0
            &&& p.status is None ==> g.status == GroceryStatus::Shelf
        }),
{
    let g = new_row(db.next_id, cid, p);
    let rows2 = seq![g] + db.rows@;
    assert(rows2[0] == g);
}

} // verus!

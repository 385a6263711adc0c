//! The groceries table: an in-memory relational store with the statement
//! semantics the access controller relies on — single-row select, update
//! and delete with a distinguishable "no rows" signal, insert with
//! store-assigned ids and column defaults, and a fixed seed fixture.

use crate::model::grocery::apply_patch;
use crate::model::grocery::create_accepted;
use crate::model::grocery::new_row;
use crate::model::grocery::Grocery;
use crate::model::grocery::GroceryPatch;
use crate::model::grocery::GroceryStatus;
use vstd::prelude::*;
use vstd::string::StringExecFns;

verus! {

/// A failure at the store boundary, before domain translation.
#[derive(Debug)]
pub enum StoreError {
    /// A single-row statement matched no row.
    RowNotFound,
    /// An insert left a column with neither a value nor a default; holds the
    /// column name.
    MissingColumn(String),
    /// The store has no id left to assign.
    IdExhausted,
}

/// The first row carrying the id, if any.
pub open spec fn lookup(rows: Seq<Grocery>, id: i64) -> Option<Grocery>
    decreases rows.len(),
{
    if rows.len() == 0 {
        None
    } else if rows[0].id == id {
        Some(rows[0])
    } else {
        lookup(rows.skip(1), id)
    }
}

/// The rows with the first row carrying the id taken out.
pub open spec fn remove_id(rows: Seq<Grocery>, id: i64) -> Seq<Grocery>
    decreases rows.len(),
{
    if rows.len() == 0 {
        rows
    } else if rows[0].id == id {
        rows.skip(1)
    } else {
        seq![rows[0]] + remove_id(rows.skip(1), id)
    }
}

/// The rows with the patch applied to the first row carrying the id.
pub open spec fn patch_id(rows: Seq<Grocery>, id: i64, p: GroceryPatch) -> Seq<Grocery>
    decreases rows.len(),
{
    if rows.len() == 0 {
        rows
    } else if rows[0].id == id {
        seq![apply_patch(rows[0], p)] + rows.skip(1)
    } else {
        seq![rows[0]] + patch_id(rows.skip(1), id, p)
    }
}

/// Strictly descending by id; implies the ids are unique.
pub open spec fn sorted_desc(rows: Seq<Grocery>) -> bool {
    forall|i: int, j: int| 0 <= i < j < rows.len() ==> rows[i].id > rows[j].id
}

/// How the single-row operations relate to a row found at an index: when a
/// row with the id stands at `k` and nowhere earlier, lookup yields it, and
/// removing or patching by id is removing or updating at `k`.
proof fn lemma_ops_found(rows: Seq<Grocery>, id: i64, k: int, p: GroceryPatch)
    requires
        0 <= k < rows.len(),
        rows[k].id == id,
        forall|j: int| 0 <= j < k ==> rows[j].id != id,
    ensures
        lookup(rows, id) == Some(rows[k]),
        remove_id(rows, id) =~= rows.remove(k),
        patch_id(rows, id, p) =~= rows.update(k, apply_patch(rows[k], p)),
    decreases k,
{
    if k == 0 {
        assert(remove_id(rows, id) =~= rows.remove(0));
        assert(patch_id(rows, id, p) =~= rows.update(0, apply_patch(rows[0], p)));
    } else {
        let tail = rows.skip(1);
        assert(forall|j: int| 0 <= j < k - 1 ==> tail[j].id != id);
        lemma_ops_found(tail, id, k - 1, p);
        assert(remove_id(rows, id) =~= rows.remove(k));
        assert(patch_id(rows, id, p) =~= rows.update(k, apply_patch(rows[k], p)));
    }
}

/// When no row carries the id, lookup yields nothing and removing or
/// patching by id changes nothing.
proof fn lemma_ops_absent(rows: Seq<Grocery>, id: i64, p: GroceryPatch)
    requires
        forall|j: int| 0 <= j < rows.len() ==> rows[j].id != id,
    ensures
        lookup(rows, id) is None,
        remove_id(rows, id) =~= rows,
        patch_id(rows, id, p) =~= rows,
    decreases rows.len(),
{
    if rows.len() > 0 {
        let tail = rows.skip(1);
        lemma_ops_absent(tail, id, p);
        assert(remove_id(rows, id) =~= rows);
        assert(patch_id(rows, id, p) =~= rows);
    }
}

/// The groceries table together with the store's id assignment cursor.
pub struct Db {
    /// The rows, newest id first.
    pub rows: Vec<Grocery>,
    /// The next id the store will assign.
    pub next_id: i64,
}

impl Db {
    /// Store invariant: rows strictly descending by id (hence unique ids),
    /// every id below the assignment cursor, and the cursor in the
    /// store-assigned range, above the seed ids.
    pub open spec fn wf(&self) -> bool {
        &&& sorted_desc(self.rows@)
        &&& forall|i: int| 0 <= i < self.rows@.len() ==> self.rows@[i].id < self.next_id
        &&& self.next_id >= 1000
    }

    /// Decides the store invariant at run time, for callers outside the
    /// verified world that need to establish it before handing the store in.
    pub fn is_wf(&self) -> (r: bool)
        ensures
            r == self.wf(),
    {
        if self.next_id < 1000 {
            return false;
        }
        let n = self.rows.len();
        let mut k: usize = 0;
        while k < n
            invariant
                k <= n,
                n == self.rows@.len(),
                forall|m: int| 0 <= m < k ==> self.rows@[m].id < self.next_id,
                forall|i: int, j: int| 0 <= i < j < k ==> self.rows@[i].id > self.rows@[j].id,
            decreases n - k,
        {
            if self.rows[k].id >= self.next_id {
                return false;
            }
            if k > 0 && self.rows[k - 1].id <= self.rows[k].id {
                return false;
            }
            proof {
                let rows = self.rows@;
                assert forall|i: int| 0 <= i < k implies rows[i].id > rows[k as int].id by {
                    if i < k - 1 {
                        assert(rows[i].id > rows[k - 1].id);
                    }
                }
            }
            k += 1;
        }
        true
    }

    /// The index of the row carrying the id, scanning from the front.
    fn find_index(&self, id: i64) -> (r: Option<usize>)
        ensures
            match r {
                Some(k) => k < self.rows@.len() && self.rows@[k as int].id == id && forall|j: int|
                    0 <= j < k ==> self.rows@[j].id != id,
                None => forall|j: int| 0 <= j < self.rows@.len() ==> self.rows@[j].id != id,
            },
    {
        let mut k: usize = 0;
        while k < self.rows.len()
            invariant
                k <= self.rows@.len(),
                forall|j: int| 0 <= j < k ==> self.rows@[j].id != id,
            decreases self.rows@.len() - k,
        {
            if self.rows[k].id == id {
                return Some(k);
            }
            k += 1;
        }
        None
    }

    /// Single-row select by id: the row, or the store's "no rows" signal.
    pub fn fetch_one_by_id(&self, id: i64) -> (r: Result<Grocery, StoreError>)
        ensures
            match r {
                Ok(g) => lookup(self.rows@, id) == Some(g),
                Err(e) => lookup(self.rows@, id) is None && e == StoreError::RowNotFound,
            },
    {
        let ghost nop = GroceryPatch { cost: None, name: None, status: None };
        match self.find_index(id) {
            Some(k) => {
                proof {
                    lemma_ops_found(self.rows@, id, k as int, nop);
                }
                Ok(self.rows[k].clone())
            },
            None => {
                proof {
                    lemma_ops_absent(self.rows@, id, nop);
                }
                Err(StoreError::RowNotFound)
            },
        }
    }

    /// Select of the whole table in its stored order, newest id first.
    pub fn fetch_all_desc(&self) -> (r: Vec<Grocery>)
        ensures
            r@ == self.rows@,
    {
        let mut out: Vec<Grocery> = Vec::new();
        let mut k: usize = 0;
        while k < self.rows.len()
            invariant
                k <= self.rows@.len(),
                out@.len() == k,
                forall|j: int| 0 <= j < k ==> out@[j] == self.rows@[j],
            decreases self.rows@.len() - k,
        {
            out.push(self.rows[k].clone());
            k += 1;
        }
        proof {
            assert(out@ =~= self.rows@);
        }
        out
    }

    /// Insert built from the patch, returning the stored row. The store
    /// assigns the id, sets the creator column from `cid`, and applies the
    /// status default; a missing `name` or `cost` has no default and fails,
    /// as does an exhausted id range.
    pub fn insert_returning(&mut self, data: GroceryPatch, cid: i64) -> (r: Result<
        Grocery,
        StoreError,
    >)
        requires
            old(self).wf(),
        ensures
            final(self).wf(),
            r is Ok <==> create_accepted(old(self).next_id, data),
            match r {
                Ok(g) => {
                    &&& g == new_row(old(self).next_id, cid, data)
                    &&& final(self).rows@ == seq![g] + old(self).rows@
                    &&& final(self).next_id == old(self).next_id + 1
                },
                Err(e) => {
                    &&& *final(self) == *old(self)
                    &&& match e {
                        StoreError::MissingColumn(c) => (c@ == "name"@ && data.name is None) || (
                        c@ == "cost"@ && data.name is Some && data.cost is None),
                        StoreError::IdExhausted => data.name is Some && data.cost is Some && old(
                            self,
                        ).next_id == i64::MAX,
                        StoreError::RowNotFound => false,
                    }
                },
            },
    {
        let GroceryPatch { cost, name, status } = data;
        let name = match name {
            Some(n) => n,
            None => {
                return Err(StoreError::MissingColumn("name".to_owned()));
            },
        };
        let cost = match cost {
            Some(c) => c,
            None => {
                return Err(StoreError::MissingColumn("cost".to_owned()));
            },
        };
        if self.next_id == i64::MAX {
            return Err(StoreError::IdExhausted);
        }
        let status = match status {
            Some(st) => st,
            None => GroceryStatus::Shelf,
        };
        let g = Grocery { id: self.next_id, cid, cost, name, status };
        let stored = g.clone();
        self.rows.insert(0, stored);
        self.next_id = self.next_id + 1;
        proof {
            assert(self.rows@ =~= seq![g] + old(self).rows@);
            assert forall|i: int, j: int| 0 <= i < j < self.rows@.len() implies self.rows@[i].id
                > self.rows@[j].id by {
                if i > 0 {
                    assert(old(self).rows@[i - 1].id > old(self).rows@[j - 1].id);
                }
            }
        }
        Ok(g)
    }

    /// Single-row update by id: applies only the fields present in the
    /// patch and returns the post-update row, or the store's "no rows"
    /// signal when the id matches nothing.
    pub fn update_returning(&mut self, id: i64, data: GroceryPatch) -> (r: Result<
        Grocery,
        StoreError,
    >)
        requires
            old(self).wf(),
        ensures
            final(self).wf(),
            final(self).next_id == old(self).next_id,
            match r {
                Ok(g) => {
                    &&& lookup(old(self).rows@, id) matches Some(row0) && g == apply_patch(
                        row0,
                        data,
                    )
                    &&& final(self).rows@ == patch_id(old(self).rows@, id, data)
                },
                Err(e) => {
                    &&& e == StoreError::RowNotFound
                    &&& lookup(old(self).rows@, id) is None
                    &&& *final(self) == *old(self)
                },
            },
    {
        let ghost d = data;
        let k = match self.find_index(id) {
            Some(k) => k,
            None => {
                proof {
                    lemma_ops_absent(self.rows@, id, d);
                }
                return Err(StoreError::RowNotFound);
            },
        };
        proof {
            lemma_ops_found(old(self).rows@, id, k as int, d);
        }
        let row0 = self.rows.remove(k);
        let GroceryPatch { cost: pcost, name: pname, status: pstatus } = data;
        let g = Grocery {
            id: row0.id,
            cid: row0.cid,
            cost: match pcost {
                Some(c) => c,
                None => row0.cost,
            },
            name: match pname {
                Some(n) => n,
                None => row0.name,
            },
            status: match pstatus {
                Some(st) => st,
                None => row0.status,
            },
        };
        let stored = g.clone();
        self.rows.insert(k, stored);
        proof {
            assert(g == apply_patch(old(self).rows@[k as int], d));
            assert(self.rows@ =~= old(self).rows@.update(k as int, g));
            assert(self.rows@ =~= patch_id(old(self).rows@, id, d));
        }
        Ok(g)
    }

    /// Single-row delete by id: removes the row and returns its last state,
    /// or the store's "no rows" signal when the id matches nothing.
    pub fn delete_returning(&mut self, id: i64) -> (r: Result<Grocery, StoreError>)
        requires
            old(self).wf(),
        ensures
            final(self).wf(),
            final(self).next_id == old(self).next_id,
            match r {
                Ok(g) => {
                    &&& lookup(old(self).rows@, id) == Some(g)
                    &&& final(self).rows@ == remove_id(old(self).rows@, id)
                },
                Err(e) => {
                    &&& e == StoreError::RowNotFound
                    &&& lookup(old(self).rows@, id) is None
                    &&& *final(self) == *old(self)
                },
            },
    {
        let ghost nop = GroceryPatch { cost: None, name: None, status: None };
        let k = match self.find_index(id) {
            Some(k) => k,
            None => {
                proof {
                    lemma_ops_absent(self.rows@, id, nop);
                }
                return Err(StoreError::RowNotFound);
            },
        };
        proof {
            lemma_ops_found(old(self).rows@, id, k as int, nop);
        }
        let row0 = self.rows.remove(k);
        proof {
            assert(self.rows@ =~= remove_id(old(self).rows@, id));
            assert forall|i: int, j: int| 0 <= i < j < self.rows@.len() implies self.rows@[i].id
                > self.rows@[j].id by {
                let oi = if i < k as int {
                    i
                } else {
                    i + 1
                };
                let oj = if j < k as int {
                    j
                } else {
                    j + 1
                };
                assert(old(self).rows@[oi].id > old(self).rows@[oj].id);
            }
        }
        Ok(row0)
    }
}

/// Opens the store and seeds the fixture: row 100 (banana, 25, Basket) and
/// row 101 (orange, 50, Shelf), both created by user 123, with
/// store-assigned ids starting at 1000.
pub fn init_db() -> (db: Db)
    ensures
        db.wf(),
        db.next_id == 1000,
        db.rows@.len() == 2,
        db.rows@[0].id == 101 && db.rows@[0].cid == 123 && db.rows@[0].cost == 50 && db.rows@[0].name@
            == "orange"@ && db.rows@[0].status == GroceryStatus::Shelf,
        db.rows@[1].id == 100 && db.rows@[1].cid == 123 && db.rows@[1].cost == 25 && db.rows@[1].name@
            == "banana"@ && db.rows@[1].status == GroceryStatus::Basket,
{
    let orange = Grocery {
        id: 101,
        cid: 123,
        cost: 50,
        name: String::from_str("orange"),
        status: GroceryStatus::Shelf,
    };
    let banana = Grocery {
        id: 100,
        cid: 123,
        cost: 25,
        name: String::from_str("banana"),
        status: GroceryStatus::Basket,
    };
    let mut rows: Vec<Grocery> = Vec::new();
    rows.push(orange);
    rows.push(banana);
    Db { rows, next_id: 1000 }
}

} // verus!

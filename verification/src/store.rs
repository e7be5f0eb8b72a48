//! An in-memory model of the backing table.
//!
//! The real store is a relational database reached through a bounded
//! connection pool; the library never talks to it directly. What the
//! repository relies on is only the *meaning* of its two queries:
//! selecting every row, and selecting the single row with a given key.
//! [`Table`] captures a snapshot of the table's rows and gives those two
//! selections exact contracts, so the repository's behaviour over any
//! store contents can be stated and proved.

use vstd::prelude::*;
use crate::recipe::{Recipe, RecipeView, QueryError, sentinel_view, views_of};

verus! {

/// Whether some row of `rows` carries the key `id`.
pub open spec fn has_id(rows: Seq<RecipeView>, id: u32) -> bool {
    exists|i: int| 0 <= i < rows.len() && rows[i].id == id
}

/// No two rows share a key. The store assigns keys uniquely, so every
/// snapshot of it satisfies this.
pub open spec fn unique_ids(rows: Seq<RecipeView>) -> bool {
    forall|i: int, j: int| 0 <= i < j < rows.len() ==> rows[i].id != rows[j].id
}

/// What a single-item lookup resolves to: the first row carrying the
/// key, or the sentinel when no row does.
pub open spec fn lookup_spec(rows: Seq<RecipeView>, id: u32) -> RecipeView
    decreases rows.len(),
{
    if rows.len() == 0 {
        sentinel_view()
    } else if rows[0].id == id {
        rows[0]
    } else {
        lookup_spec(rows.drop_first(), id)
    }
}

/// A snapshot of the table: one row per stored recipe, in store order.
pub struct Table {
    pub rows: Vec<Recipe>,
}

impl View for Table {
    type V = Seq<RecipeView>;

    open spec fn view(&self) -> Seq<RecipeView> {
        views_of(self.rows@)
    }
}

impl Table {
    /// Selects every row, in store order.
    pub fn select_all(&self) -> (r: Result<Vec<Recipe>, QueryError>)
        ensures
            r matches Ok(v) && views_of(v@) == self@,
    {
        let n = self.rows.len();
        let mut out: Vec<Recipe> = Vec::new();
        let mut i: usize = 0;
        while i < n
            invariant
                i <= n,
                n == self.rows.len(),
                views_of(out@) == views_of(self.rows@).take(i as int),
            decreases n - i,
        {
            let row = self.rows[i].duplicate();
            let ghost prev = out@;
            let ghost r0 = row;
            out.push(row);
            proof {
                crate::recipe::lemma_views_of_push(prev, r0);
                assert(views_of(out@) =~= views_of(self.rows@).take(i + 1));
            }
            i += 1;
        }
        proof {
            assert(views_of(self.rows@).take(n as int) =~= views_of(self.rows@));
        }
        Ok(out)
    }

    /// Selects the single row carrying `id`, reporting `NotFound` when
    /// no row does.
    pub fn select_one(&self, id: u32) -> (r: Result<Recipe, QueryError>)
        ensures
            match r {
                Ok(rec) => has_id(self@, id) && rec@ == lookup_spec(self@, id),
                Err(e) => !has_id(self@, id) && e == QueryError::NotFound,
            },
    {
        let n = self.rows.len();
        let mut i: usize = 0;
        while i < n
            invariant
                i <= n,
                n == self.rows.len(),
                forall|j: int| 0 <= j < i ==> self@[j].id != id,
            decreases n - i,
        {
            if self.rows[i].id == id {
                let found = self.rows[i].duplicate();
                proof {
                    lemma_lookup_first(self@, id, i as int);
                }
                return Ok(found);
            }
            i += 1;
        }
        Err(QueryError::NotFound)
    }
}

/// The first row carrying the key decides the lookup.
proof fn lemma_lookup_first(rows: Seq<RecipeView>, id: u32, k: int)
    requires
        0 <= k < rows.len(),
        rows[k].id == id,
        forall|j: int| 0 <= j < k ==> rows[j].id != id,
    ensures
        lookup_spec(rows, id) == rows[k],
    decreases k,
{
    if k > 0 {
        lemma_lookup_first(rows.drop_first(), id, k - 1);
    }
}

/// When no row carries the key, the lookup resolves to the sentinel.
pub proof fn lemma_lookup_absent(rows: Seq<RecipeView>, id: u32)
    requires
        !has_id(rows, id),
    ensures
        lookup_spec(rows, id) == sentinel_view(),
    decreases rows.len(),
{
    if rows.len() > 0 {
        assert(rows[0].id != id);
        assert(!has_id(rows.drop_first(), id)) by {
            if has_id(rows.drop_first(), id) {
                let i = choose|i: int|
                    0 <= i < rows.drop_first().len() && rows.drop_first()[i].id == id;
                assert(rows[i + 1].id == id);
            }
        }
        lemma_lookup_absent(rows.drop_first(), id);
    }
}

/// With unique keys, the lookup returns exactly the row that carries
/// the key.
pub proof fn lemma_lookup_present(rows: Seq<RecipeView>, id: u32, k: int)
    requires
        unique_ids(rows),
        0 <= k < rows.len(),
        rows[k].id == id,
    ensures
        lookup_spec(rows, id) == rows[k],
{
    assert forall|j: int| 0 <= j < k implies rows[j].id != id by {
        assert(rows[j].id != rows[k].id);
    }
    lemma_lookup_first(rows, id, k);
}

} // verus!

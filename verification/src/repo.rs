//! The recipe repository: typed queries plus the failure-fallback
//! policy.
//!
//! A query outcome is either the mapped rows or a [`QueryError`]. The
//! repository never lets the error reach its caller: a failed listing
//! degrades to an empty listing, and a failed single-item lookup
//! degrades to the sentinel entity. [`recipes_or_empty`] and
//! [`recipe_or_sentinel`] are that policy by itself, applied to any
//! outcome — the process boundary hands them what the real store
//! returned. [`get_recipes`] and [`get_recipe`] compose the policy with
//! the modelled store, which pins down the repository's behaviour over
//! the store's whole contents.

use vstd::prelude::*;
use crate::recipe::{Recipe, RecipeView, QueryError, sentinel_view, views_of};
use crate::store::{Table, has_id, unique_ids, lookup_spec, lemma_lookup_absent,
    lemma_lookup_present};

verus! {

/// The rows a listing degrades to: the queried rows on success, no
/// rows at all on failure.
pub open spec fn outcome_rows(outcome: Result<Vec<Recipe>, QueryError>) -> Seq<RecipeView> {
    match outcome {
        Ok(v) => views_of(v@),
        Err(_) => Seq::empty(),
    }
}

/// The entity a single-item lookup degrades to: the queried row on
/// success, the sentinel on failure.
pub open spec fn outcome_recipe(outcome: Result<Recipe, QueryError>) -> RecipeView {
    match outcome {
        Ok(rec) => rec@,
        Err(_) => sentinel_view(),
    }
}

/// The listing fallback: a failed query yields an empty listing, never
/// an error.
pub fn recipes_or_empty(outcome: Result<Vec<Recipe>, QueryError>) -> (r: Vec<Recipe>)
    ensures
        views_of(r@) == outcome_rows(outcome),
        outcome is Err ==> r@.len() == 0,
{
    match outcome {
        Ok(v) => v,
        Err(_) => {
            let empty: Vec<Recipe> = Vec::new();
            proof {
                assert(views_of(empty@) =~= Seq::<RecipeView>::empty());
            }
            empty
        },
    }
}

/// The lookup fallback: a failed query yields the sentinel entity,
/// never an error.
pub fn recipe_or_sentinel(outcome: Result<Recipe, QueryError>) -> (r: Recipe)
    ensures
        r@ == outcome_recipe(outcome),
        outcome is Err ==> r@ == sentinel_view(),
{
    match outcome {
        Ok(rec) => rec,
        Err(_) => Recipe::sentinel(),
    }
}

/// Lists every stored recipe: the listing carries exactly the store's
/// rows, one entry per row, in store order.
pub fn get_recipes(table: &Table) -> (r: Vec<Recipe>)
    ensures
        views_of(r@) == table@,
        r@.len() == table@.len(),
        forall|i: int| 0 <= i < r@.len() ==> table@.contains(#[trigger] r@[i]@),
{
    let outcome = table.select_all();
    let r = recipes_or_empty(outcome);
    proof {
        assert forall|i: int| 0 <= i < r@.len() implies table@.contains(#[trigger] r@[i]@) by {
            assert(views_of(r@)[i] == r@[i]@);
            assert(table@[i] == r@[i]@);
        }
    }
    r
}

/// Looks a recipe up by key. When some row carries the key, the first
/// such row comes back — with unique keys, the one stored row whose
/// `id` and `name` match. When no row carries the key, the sentinel
/// entity comes back.
pub fn get_recipe(table: &Table, id: u32) -> (r: Recipe)
    ensures
        r@ == lookup_spec(table@, id),
        !has_id(table@, id) ==> r@ == sentinel_view(),
        unique_ids(table@) ==> forall|i: int| 0 <= i < table@.len() && (#[trigger] table@[i]).id == id
            ==> r@ == table@[i],
{
    let outcome = table.select_one(id);
    let r = recipe_or_sentinel(outcome);
    proof {
        if !has_id(table@, id) {
            lemma_lookup_absent(table@, id);
        }
        if unique_ids(table@) {
            assert forall|i: int|
                0 <= i < table@.len() && (#[trigger] table@[i]).id == id implies r@ == table@[i] by {
                lemma_lookup_present(table@, id, i);
            }
        }
    }
    r
}

/// Repeated lookups against an unchanged store return identical
/// results: the outcome is a function of the store's rows and the key
/// alone.
pub proof fn lemma_lookup_idempotent(rows: Seq<RecipeView>, id: u32, r1: RecipeView, r2: RecipeView)
    requires
        r1 == lookup_spec(rows, id),
        r2 == lookup_spec(rows, id),
    ensures
        r1 == r2,
{
}

/// Repeated listings against an unchanged store return identical
/// results: the listing is a function of the store's rows alone.
pub proof fn lemma_listing_idempotent(rows: Seq<RecipeView>, l1: Seq<RecipeView>, l2: Seq<RecipeView>)
    requires
        l1 == rows,
        l2 == rows,
    ensures
        l1 == l2,
{
}

} // verus!

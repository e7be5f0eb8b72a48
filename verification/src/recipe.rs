//! The catalog's sole entity, its mathematical view, and the sentinel
//! value that stands in for a failed single-item lookup.

use vstd::prelude::*;
use vstd::string::StringExecFns;

verus! {

/// A stored entity: a numeric key assigned by the store and a name.
pub struct Recipe {
    pub id: u32,
    pub name: String,
}

/// The mathematical value of a [`Recipe`]: its key and the characters
/// of its name.
pub ghost struct RecipeView {
    pub id: u32,
    pub name: Seq<char>,
}

impl View for Recipe {
    type V = RecipeView;

    open spec fn view(&self) -> RecipeView {
        RecipeView { id: self.id, name: self.name@ }
    }
}

/// The views of a sequence of recipes, in order.
pub open spec fn views_of(rows: Seq<Recipe>) -> Seq<RecipeView> {
    rows.map_values(|r: Recipe| r@)
}

/// Appending a row appends its view.
pub proof fn lemma_views_of_push(rows: Seq<Recipe>, r: Recipe)
    ensures
        views_of(rows.push(r)) =~= views_of(rows).push(r@),
{
}

/// Why a query produced no rows to map: the store had no matching row,
/// or the store itself failed. The repository deliberately collapses
/// both into the same fallback value; the tag is kept so a boundary
/// layer could one day tell them apart.
#[derive(PartialEq, Eq, Structural, Clone, Copy, Debug)]
pub enum QueryError {
    NotFound,
    Store,
}

/// The value of the sentinel entity returned when a single-item lookup
/// fails: key zero and the name "Error".
pub open spec fn sentinel_view() -> RecipeView {
    RecipeView { id: 0, name: "Error"@ }
}

impl Recipe {
    /// Builds the sentinel entity.
    pub fn sentinel() -> (r: Recipe)
        ensures
            r@ == sentinel_view(),
    {
        Recipe { id: 0, name: String::from_str("Error") }
    }

    /// Copies a recipe field by field.
    pub fn duplicate(&self) -> (r: Recipe)
        ensures
            r@ == self@,
    {
        Recipe { id: self.id, name: self.name.clone() }
    }
}

} // verus!

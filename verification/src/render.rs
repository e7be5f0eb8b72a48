//! Plain-text rendering of the route bodies.
//!
//! Every route answers with plain text built from the repository's
//! result: a greeting with the service name and version, a one-line
//! detail for a single lookup, and one `name (id)` line per recipe for
//! the listing. The decimal rendering of a key is specified by
//! [`dec_rep`] and proved digit by digit.

use vstd::prelude::*;
use vstd::string::StringExecFns;
use crate::recipe::{Recipe, RecipeView, QueryError, views_of};
use crate::repo::{outcome_recipe, outcome_rows, recipe_or_sentinel, recipes_or_empty};

verus! {

/// The character of a single decimal digit.
pub open spec fn dec_digit(d: nat) -> char
    recommends
        d < 10,
{
    if d == 0 {
        '0'
    } else if d == 1 {
        '1'
    } else if d == 2 {
        '2'
    } else if d == 3 {
        '3'
    } else if d == 4 {
        '4'
    } else if d == 5 {
        '5'
    } else if d == 6 {
        '6'
    } else if d == 7 {
        '7'
    } else if d == 8 {
        '8'
    } else {
        '9'
    }
}

/// The decimal rendering of a number: most significant digit first,
/// no leading zeros except for the number zero itself.
pub open spec fn dec_rep(n: nat) -> Seq<char>
    decreases n,
{
    if n < 10 {
        seq![dec_digit(n)]
    } else {
        dec_rep(n / 10) + seq![dec_digit(n % 10)]
    }
}

/// A digit as a one-character string slice.
fn digit_str(d: u32) -> (s: &'static str)
    requires
        d < 10,
    ensures
        s@ =~= seq![dec_digit(d as nat)],
{
    proof {
        reveal_strlit("0");
        reveal_strlit("1");
        reveal_strlit("2");
        reveal_strlit("3");
        reveal_strlit("4");
        reveal_strlit("5");
        reveal_strlit("6");
        reveal_strlit("7");
        reveal_strlit("8");
        reveal_strlit("9");
    }
    match d {
        0 => "0",
        1 => "1",
        2 => "2",
        3 => "3",
        4 => "4",
        5 => "5",
        6 => "6",
        7 => "7",
        8 => "8",
        _ => "9",
    }
}

/// Appends the decimal rendering of `n`.
fn push_dec(out: &mut String, n: u32)
    ensures
        final(out)@ == old(out)@ + dec_rep(n as nat),
    decreases n,
{
    if n >= 10 {
        push_dec(out, n / 10);
    }
    let d = digit_str(n % 10);
    out.append(d);
    proof {
        assert(out@ =~= old(out)@ + dec_rep(n as nat));
    }
}

/// Renders a number in decimal.
pub fn u32_to_string(n: u32) -> (s: String)
    ensures
        s@ == dec_rep(n as nat),
{
    let mut s = String::new();
    push_dec(&mut s, n);
    proof {
        assert(s@ =~= dec_rep(n as nat));
    }
    s
}

/// The greeting served at the root route.
pub open spec fn home_of(name: Seq<char>, version: u8) -> Seq<char> {
    "Welcome to "@ + name + " v"@ + dec_rep(version as nat)
}

/// Builds the root route's body from the service name and version.
pub fn home_body(name: &str, version: u8) -> (s: String)
    ensures
        s@ == home_of(name@, version),
{
    let mut s = String::from_str("Welcome to ");
    s.append(name);
    s.append(" v");
    push_dec(&mut s, version as u32);
    s
}

/// The detail body for a single lookup: the requested key, then the
/// resolved name.
pub open spec fn detail_of(id: u32, name: Seq<char>) -> Seq<char> {
    "You requested goodie with id: "@ + dec_rep(id as nat) + "\nName: "@ + name
}

/// Builds the single-lookup route's body from the requested key and
/// the query outcome, applying the lookup fallback.
pub fn recipe_route_body(id: u32, outcome: Result<Recipe, QueryError>) -> (s: String)
    ensures
        s@ == detail_of(id, outcome_recipe(outcome).name),
{
    let rec = recipe_or_sentinel(outcome);
    let mut s = String::from_str("You requested goodie with id: ");
    push_dec(&mut s, id);
    s.append("\nName: ");
    s.append(rec.name.as_str());
    s
}

/// One listing line: the recipe's name, then its key in parentheses,
/// newline-terminated.
pub open spec fn line_of(r: RecipeView) -> Seq<char> {
    r.name + " ("@ + dec_rep(r.id as nat) + ")\n"@
}

/// The whole listing: one line per row, in row order.
pub open spec fn listing_of(rows: Seq<RecipeView>) -> Seq<char>
    decreases rows.len(),
{
    if rows.len() == 0 {
        Seq::empty()
    } else {
        listing_of(rows.drop_last()) + line_of(rows.last())
    }
}

/// Renders one listing line.
pub fn render_line(r: &Recipe) -> (s: String)
    ensures
        s@ == line_of(r@),
{
    let mut s = r.name.clone();
    s.append(" (");
    push_dec(&mut s, r.id);
    s.append(")\n");
    s
}

/// Renders the whole listing, row by row.
pub fn render_listing(rows: &Vec<Recipe>) -> (s: String)
    ensures
        s@ == listing_of(views_of(rows@)),
{
    let mut s = String::new();
    let n = rows.len();
    let mut i: usize = 0;
    while i < n
        invariant
            i <= n,
            n == rows.len(),
            s@ == listing_of(views_of(rows@).take(i as int)),
        decreases n - i,
    {
        let line = render_line(&rows[i]);
        s.append(line.as_str());
        proof {
            let vs = views_of(rows@);
            assert(vs.take(i + 1).drop_last() =~= vs.take(i as int));
            assert(vs.take(i + 1).last() == vs[i as int]);
            assert(vs[i as int] == rows@[i as int]@);
        }
        i += 1;
    }
    proof {
        assert(views_of(rows@).take(n as int) =~= views_of(rows@));
    }
    s
}

/// Builds the listing route's body from the query outcome, applying
/// the listing fallback: a failed query renders as the empty body.
pub fn recipes_route_body(outcome: Result<Vec<Recipe>, QueryError>) -> (s: String)
    ensures
        s@ == listing_of(outcome_rows(outcome)),
{
    let rows = recipes_or_empty(outcome);
    let s = render_listing(&rows);
    proof {
        assert(views_of(rows@) == outcome_rows(outcome));
    }
    s
}

} // verus!

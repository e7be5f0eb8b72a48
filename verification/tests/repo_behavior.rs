use goodies::recipe::{QueryError, Recipe};
use goodies::repo::{get_recipe, get_recipes, recipe_or_sentinel, recipes_or_empty};
use goodies::store::Table;

fn recipe(id: u32, name: &str) -> Recipe {
    Recipe { id, name: String::from(name) }
}

fn sample_table() -> Table {
    Table { rows: vec![recipe(1, "Pancakes"), recipe(2, "Waffles")] }
}

#[test]
fn sentinel_has_id_zero_and_error_name() {
    let s = Recipe::sentinel();
    assert_eq!(s.id, 0);
    assert_eq!(s.name, "Error");
}

#[test]
fn get_recipe_returns_matching_stored_row() {
    let t = sample_table();
    let r1 = get_recipe(&t, 1);
    assert_eq!(r1.id, 1);
    assert_eq!(r1.name, "Pancakes");
    let r2 = get_recipe(&t, 2);
    assert_eq!(r2.id, 2);
    assert_eq!(r2.name, "Waffles");
}

#[test]
fn get_recipe_absent_id_returns_sentinel() {
    let t = sample_table();
    let r = get_recipe(&t, 5);
    assert_eq!(r.id, 0);
    assert_eq!(r.name, "Error");
}

#[test]
fn get_recipe_stored_id_zero_row_is_returned_as_stored() {
    let t = Table { rows: vec![recipe(0, "Porridge")] };
    let r = get_recipe(&t, 0);
    assert_eq!(r.id, 0);
    assert_eq!(r.name, "Porridge");
}

#[test]
fn get_recipe_duplicate_ids_returns_first_match() {
    let t = Table { rows: vec![recipe(3, "First"), recipe(3, "Second")] };
    let r = get_recipe(&t, 3);
    assert_eq!(r.name, "First");
}

#[test]
fn get_recipes_lists_every_row_in_store_order() {
    let t = sample_table();
    let all = get_recipes(&t);
    assert_eq!(all.len(), 2);
    assert_eq!(all[0].id, 1);
    assert_eq!(all[0].name, "Pancakes");
    assert_eq!(all[1].id, 2);
    assert_eq!(all[1].name, "Waffles");
}

#[test]
fn get_recipes_empty_store_lists_nothing() {
    let t = Table { rows: Vec::new() };
    assert_eq!(get_recipes(&t).len(), 0);
}

#[test]
fn get_recipes_keeps_duplicate_names() {
    let t = Table { rows: vec![recipe(1, "Scone"), recipe(2, "Scone")] };
    let all = get_recipes(&t);
    assert_eq!(all.len(), 2);
    assert_eq!(all[0].name, "Scone");
    assert_eq!(all[1].name, "Scone");
}

#[test]
fn repeated_lookups_on_unchanged_store_agree() {
    let t = sample_table();
    let a = get_recipe(&t, 2);
    let b = get_recipe(&t, 2);
    assert_eq!(a.id, b.id);
    assert_eq!(a.name, b.name);
    let l1 = get_recipes(&t);
    let l2 = get_recipes(&t);
    assert_eq!(l1.len(), l2.len());
    for i in 0..l1.len() {
        assert_eq!(l1[i].id, l2[i].id);
        assert_eq!(l1[i].name, l2[i].name);
    }
}

#[test]
fn failed_listing_degrades_to_empty() {
    let r = recipes_or_empty(Err(QueryError::Store));
    assert_eq!(r.len(), 0);
}

#[test]
fn failed_lookup_degrades_to_sentinel() {
    let r = recipe_or_sentinel(Err(QueryError::Store));
    assert_eq!(r.id, 0);
    assert_eq!(r.name, "Error");
    let r = recipe_or_sentinel(Err(QueryError::NotFound));
    assert_eq!(r.id, 0);
    assert_eq!(r.name, "Error");
}

#[test]
fn successful_outcomes_pass_through_unchanged() {
    let rows = recipes_or_empty(Ok(vec![recipe(9, "Crumble")]));
    assert_eq!(rows.len(), 1);
    assert_eq!(rows[0].id, 9);
    assert_eq!(rows[0].name, "Crumble");
    let one = recipe_or_sentinel(Ok(recipe(9, "Crumble")));
    assert_eq!(one.id, 9);
    assert_eq!(one.name, "Crumble");
}

#[test]
fn select_one_reports_not_found_on_empty_table() {
    let t = Table { rows: Vec::new() };
    match t.select_one(4) {
        Ok(_) => panic!("no row carries id 4"),
        Err(e) => assert_eq!(e, QueryError::NotFound),
    }
}

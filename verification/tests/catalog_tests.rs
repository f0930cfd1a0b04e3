//! Tests of catalog construction, validation, and lookup.

use barkeep::catalog::{Catalog, Drink, Ingredient};

fn mk_ingredient(id: &str, display_name: &str) -> Ingredient {
    Ingredient { id: id.to_owned(), display_name: display_name.to_owned() }
}

fn mk_drink(id: &str, display_name: &str, required: &[&str]) -> Drink {
    Drink {
        id: id.to_owned(),
        display_name: display_name.to_owned(),
        required: required.iter().map(|s| (*s).to_owned()).collect(),
        recipe: Vec::new(),
    }
}

fn small_ingredients() -> Vec<Ingredient> {
    vec![mk_ingredient("gin", "Gin"), mk_ingredient("dryVermouth", "Dry Vermouth")]
}

#[test]
fn well_formed_tables_are_accepted() {
    let catalog = Catalog::new(
        small_ingredients(),
        vec![mk_drink("martini", "Martini", &["gin", "dryVermouth"])],
    );
    assert!(catalog.is_some());
}

#[test]
fn duplicate_ingredient_ids_are_refused() {
    let catalog = Catalog::new(
        vec![mk_ingredient("gin", "Gin"), mk_ingredient("gin", "London Dry Gin")],
        vec![mk_drink("martini", "Martini", &["gin"])],
    );
    assert!(catalog.is_none());
}

#[test]
fn duplicate_drink_ids_are_refused() {
    let catalog = Catalog::new(
        small_ingredients(),
        vec![
            mk_drink("martini", "Martini", &["gin"]),
            mk_drink("martini", "Dry Martini", &["gin", "dryVermouth"]),
        ],
    );
    assert!(catalog.is_none());
}

#[test]
fn empty_required_set_is_refused() {
    let catalog = Catalog::new(small_ingredients(), vec![mk_drink("airDrink", "Air Drink", &[])]);
    assert!(catalog.is_none());
}

#[test]
fn duplicate_required_ids_are_refused() {
    let catalog = Catalog::new(
        small_ingredients(),
        vec![mk_drink("doubleGin", "Double Gin", &["gin", "gin"])],
    );
    assert!(catalog.is_none());
}

#[test]
fn unresolvable_required_id_is_refused() {
    let catalog = Catalog::new(
        small_ingredients(),
        vec![mk_drink("rustyNail", "Rusty Nail", &["scotch", "drambuie"])],
    );
    assert!(catalog.is_none());
}

#[test]
fn unresolvable_recipe_id_is_refused() {
    let mut d = mk_drink("martini", "Martini", &["gin"]);
    d.recipe = vec![barkeep::catalog::RecipeEntry {
        ingredient_id: "vermouthDeLuxe".to_owned(),
        amount: "1 cl".to_owned(),
    }];
    let catalog = Catalog::new(small_ingredients(), vec![d]);
    assert!(catalog.is_none());
}

#[test]
fn lookup_finds_a_known_ingredient() {
    let catalog = Catalog::new(
        small_ingredients(),
        vec![mk_drink("martini", "Martini", &["gin", "dryVermouth"])],
    )
    .expect("catalog data is well formed");
    let found = catalog.lookup_ingredient(&"dryVermouth".to_owned());
    let ing = found.expect("dryVermouth is in the table");
    assert_eq!(ing.id, "dryVermouth");
    assert_eq!(ing.display_name, "Dry Vermouth");
}

#[test]
fn lookup_misses_an_unknown_ingredient() {
    let catalog = Catalog::new(
        small_ingredients(),
        vec![mk_drink("martini", "Martini", &["gin", "dryVermouth"])],
    )
    .expect("catalog data is well formed");
    assert!(catalog.lookup_ingredient(&"cola".to_owned()).is_none());
}

//! Tests of the matcher against a small example catalog.

use barkeep::catalog::{Catalog, Drink, Ingredient, RecipeEntry};
use barkeep::matcher::{match_drinks, DrinkResult};

fn ingredient(id: &str, display_name: &str) -> Ingredient {
    Ingredient { id: id.to_owned(), display_name: display_name.to_owned() }
}

fn drink(id: &str, display_name: &str, required: &[&str]) -> Drink {
    Drink {
        id: id.to_owned(),
        display_name: display_name.to_owned(),
        required: required.iter().map(|s| (*s).to_owned()).collect(),
        recipe: Vec::new(),
    }
}

/// The example catalog: martini, aviation, old fashioned.
fn example_catalog() -> Catalog {
    let ingredients = vec![
        ingredient("gin", "Gin"),
        ingredient("dryVermouth", "Dry Vermouth"),
        ingredient("maraschino", "Maraschino Liqueur"),
        ingredient("lemonJuice", "Lemon Juice"),
        ingredient("bourbon", "Bourbon"),
        ingredient("angosturaBitters", "Angostura Bitters"),
    ];
    let drinks = vec![
        drink("martini", "Martini", &["gin", "dryVermouth"]),
        drink("aviation", "Aviation", &["gin", "maraschino", "lemonJuice"]),
        drink("oldFashioned", "Old Fashioned", &["bourbon", "angosturaBitters"]),
    ];
    Catalog::new(ingredients, drinks).expect("example catalog data is well formed")
}

fn available(ids: &[&str]) -> Vec<String> {
    ids.iter().map(|s| (*s).to_owned()).collect()
}

fn result_ids(out: &[DrinkResult]) -> Vec<String> {
    out.iter().map(|r| r.id.clone()).collect()
}

fn missing_ids_sorted(r: &DrinkResult) -> Vec<String> {
    let mut ids: Vec<String> = r.missing.iter().map(|i| i.id.clone()).collect();
    ids.sort();
    ids
}

#[test]
fn gin_only_ranks_martini_then_aviation() {
    let catalog = example_catalog();
    let out = match_drinks(&catalog, &available(&["gin"]));
    assert_eq!(result_ids(&out), vec!["martini".to_owned(), "aviation".to_owned()]);
    assert_eq!(missing_ids_sorted(&out[0]), vec!["dryVermouth".to_owned()]);
    assert_eq!(
        missing_ids_sorted(&out[1]),
        vec!["lemonJuice".to_owned(), "maraschino".to_owned()]
    );
}

#[test]
fn gin_and_vermouth_make_martini_fully() {
    let catalog = example_catalog();
    let out = match_drinks(&catalog, &available(&["gin", "dryVermouth"]));
    assert_eq!(result_ids(&out), vec!["martini".to_owned(), "aviation".to_owned()]);
    assert!(out[0].missing.is_empty());
    assert_eq!(
        missing_ids_sorted(&out[1]),
        vec!["lemonJuice".to_owned(), "maraschino".to_owned()]
    );
}

#[test]
fn empty_available_set_yields_nothing() {
    let catalog = example_catalog();
    let out = match_drinks(&catalog, &available(&[]));
    assert!(out.is_empty());
}

#[test]
fn unknown_ingredient_alone_yields_nothing() {
    let catalog = example_catalog();
    let out = match_drinks(&catalog, &available(&["cola"]));
    assert!(out.is_empty());
}

#[test]
fn drinks_appear_iff_they_share_an_ingredient() {
    let catalog = example_catalog();
    let out = match_drinks(&catalog, &available(&["bourbon"]));
    // only the old fashioned shares an ingredient with {bourbon}
    assert_eq!(result_ids(&out), vec!["oldFashioned".to_owned()]);
}

#[test]
fn missing_set_is_required_minus_available() {
    let catalog = example_catalog();
    let avail = available(&["gin", "lemonJuice"]);
    let out = match_drinks(&catalog, &avail);
    for r in &out {
        for missing in &r.missing {
            assert!(!avail.contains(&missing.id));
        }
    }
    // aviation lacks exactly maraschino
    let aviation = out.iter().find(|r| r.id == "aviation").expect("aviation matches");
    assert_eq!(missing_ids_sorted(aviation), vec!["maraschino".to_owned()]);
}

#[test]
fn output_is_sorted_by_missing_count() {
    let catalog = example_catalog();
    let out = match_drinks(&catalog, &available(&["gin", "bourbon"]));
    for pair in out.windows(2) {
        assert!(pair[0].missing.len() <= pair[1].missing.len());
    }
}

#[test]
fn equal_missing_counts_keep_catalog_order() {
    let catalog = example_catalog();
    // every candidate misses one ingredient: ties broken by catalog order
    let out = match_drinks(&catalog, &available(&["gin", "maraschino", "bourbon"]));
    assert_eq!(
        result_ids(&out),
        vec!["martini".to_owned(), "aviation".to_owned(), "oldFashioned".to_owned()]
    );
    assert_eq!(out[0].missing.len(), 1);
    assert_eq!(out[1].missing.len(), 1);
    assert_eq!(out[2].missing.len(), 1);
}

#[test]
fn matching_twice_gives_identical_output() {
    let catalog = example_catalog();
    let avail = available(&["gin", "lemonJuice"]);
    let out1 = match_drinks(&catalog, &avail);
    let out2 = match_drinks(&catalog, &avail);
    assert_eq!(out1.len(), out2.len());
    for (r1, r2) in out1.iter().zip(out2.iter()) {
        assert_eq!(r1.id, r2.id);
        assert_eq!(r1.display_name, r2.display_name);
        let m1: Vec<(String, String)> =
            r1.missing.iter().map(|i| (i.id.clone(), i.display_name.clone())).collect();
        let m2: Vec<(String, String)> =
            r2.missing.iter().map(|i| (i.id.clone(), i.display_name.clone())).collect();
        assert_eq!(m1, m2);
        let i1: Vec<String> = r1.ingredients.iter().map(|i| i.id.clone()).collect();
        let i2: Vec<String> = r2.ingredients.iter().map(|i| i.id.clone()).collect();
        assert_eq!(i1, i2);
    }
}

#[test]
fn unknown_ids_do_not_change_the_output() {
    let catalog = example_catalog();
    let plain = match_drinks(&catalog, &available(&["gin"]));
    let padded = match_drinks(&catalog, &available(&["gin", "cola", "tonicWater"]));
    assert_eq!(result_ids(&plain), result_ids(&padded));
    for (r1, r2) in plain.iter().zip(padded.iter()) {
        assert_eq!(missing_ids_sorted(r1), missing_ids_sorted(r2));
    }
}

#[test]
fn fully_stocked_drink_has_nothing_missing() {
    let catalog = example_catalog();
    let out = match_drinks(&catalog, &available(&["bourbon", "angosturaBitters"]));
    let old_fashioned = out.iter().find(|r| r.id == "oldFashioned").expect("old fashioned matches");
    assert!(old_fashioned.missing.is_empty());
    // and it sorts ahead of any partial match
    assert_eq!(out[0].id, "oldFashioned");
}

#[test]
fn duplicate_available_ids_are_harmless() {
    let catalog = example_catalog();
    let out1 = match_drinks(&catalog, &available(&["gin"]));
    let out2 = match_drinks(&catalog, &available(&["gin", "gin", "gin"]));
    assert_eq!(result_ids(&out1), result_ids(&out2));
}

#[test]
fn results_carry_full_ingredient_records() {
    let catalog = example_catalog();
    let out = match_drinks(&catalog, &available(&["gin"]));
    let martini = &out[0];
    assert_eq!(martini.display_name, "Martini");
    assert_eq!(martini.missing[0].id, "dryVermouth");
    assert_eq!(martini.missing[0].display_name, "Dry Vermouth");
    // the detail list resolves every required id, in required order
    let detail_ids: Vec<String> = martini.ingredients.iter().map(|i| i.id.clone()).collect();
    assert_eq!(detail_ids, vec!["gin".to_owned(), "dryVermouth".to_owned()]);
    assert_eq!(martini.ingredients[0].display_name, "Gin");
}

#[test]
fn results_carry_the_recipe() {
    let ingredients = vec![ingredient("gin", "Gin"), ingredient("dryVermouth", "Dry Vermouth")];
    let drinks = vec![Drink {
        id: "martini".to_owned(),
        display_name: "Martini".to_owned(),
        required: vec!["gin".to_owned(), "dryVermouth".to_owned()],
        recipe: vec![
            RecipeEntry { ingredient_id: "gin".to_owned(), amount: "6 cl".to_owned() },
            RecipeEntry { ingredient_id: "dryVermouth".to_owned(), amount: "1 cl".to_owned() },
        ],
    }];
    let catalog = Catalog::new(ingredients, drinks).expect("catalog data is well formed");
    let out = match_drinks(&catalog, &available(&["gin"]));
    assert_eq!(out.len(), 1);
    assert_eq!(out[0].recipe.len(), 2);
    assert_eq!(out[0].recipe[0].ingredient_id, "gin");
    assert_eq!(out[0].recipe[0].amount, "6 cl");
    assert_eq!(out[0].recipe[1].ingredient_id, "dryVermouth");
    assert_eq!(out[0].recipe[1].amount, "1 cl");
}

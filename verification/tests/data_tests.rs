//! Tests of the built-in catalog data and the matcher over it.

use barkeep::data::{build_catalog, build_drinks, build_ingredients};
use barkeep::matcher::match_drinks;

#[test]
fn builtin_catalog_resolves_every_mentioned_id() {
    // every id that a drink's required set or recipe mentions resolves
    let catalog = build_catalog();
    for d in &catalog.drinks {
        for id in &d.required {
            assert!(catalog.lookup_ingredient(id).is_some());
        }
        for line in &d.recipe {
            assert!(catalog.lookup_ingredient(&line.ingredient_id).is_some());
        }
    }
}

#[test]
fn builtin_tables_have_the_expected_sizes() {
    assert_eq!(build_ingredients().len(), 42);
    assert_eq!(build_drinks().len(), 30);
}

#[test]
fn builtin_drinks_all_carry_recipes() {
    for d in build_drinks() {
        assert!(!d.required.is_empty());
        assert_eq!(d.required.len(), d.recipe.len());
    }
}

#[test]
fn builtin_lookup_resolves_scotch() {
    let catalog = build_catalog();
    let scotch = catalog.lookup_ingredient(&"scotch".to_owned()).expect("scotch is in the table");
    assert_eq!(scotch.display_name, "Scotch Whisky");
}

#[test]
fn gin_ranks_the_full_catalog_stably() {
    let catalog = build_catalog();
    let out = match_drinks(&catalog, &vec!["gin".to_owned()]);
    let ids: Vec<String> = out.iter().map(|r| r.id.clone()).collect();
    assert_eq!(
        ids,
        vec![
            // one missing ingredient
            "martini".to_owned(),
            // two missing, in catalog order
            "angelFace".to_owned(),
            "aviation".to_owned(),
            "derby".to_owned(),
            "negroni".to_owned(),
            "paradise".to_owned(),
            "whiteLady".to_owned(),
            // three missing, in catalog order
            "casino".to_owned(),
            "cloverClub".to_owned(),
            "ginFizz".to_owned(),
            "johnCollins".to_owned(),
            "monkeyGland".to_owned(),
            // four missing
            "tuxedo".to_owned(),
            // eight missing
            "ramosGinFizz".to_owned(),
        ]
    );
}

#[test]
fn drambuie_surfaces_the_rusty_nail() {
    let catalog = build_catalog();
    let out = match_drinks(&catalog, &vec!["drambuie".to_owned()]);
    assert_eq!(out.len(), 1);
    assert_eq!(out[0].id, "rustyNail");
    assert_eq!(out[0].missing.len(), 1);
    assert_eq!(out[0].missing[0].id, "scotch");
    assert_eq!(out[0].missing[0].display_name, "Scotch Whisky");
}

#[test]
fn full_daiquiri_shelf_makes_the_daiquiri() {
    let catalog = build_catalog();
    let avail =
        vec!["whiteRum".to_owned(), "limeJuice".to_owned(), "simpleSyrup".to_owned()];
    let out = match_drinks(&catalog, &avail);
    assert_eq!(out[0].id, "daiquiri");
    assert!(out[0].missing.is_empty());
    assert_eq!(out[0].recipe[0].ingredient_id, "whiteRum");
    assert_eq!(out[0].recipe[0].amount, "4.5 cl");
}

//! The built-in catalog data: the fixed ingredient and drink tables.
//!
//! The spec functions `builtin_ingredient_id`, `builtin_drink_id`, and
//! their companions pin every table entry by index, so the contracts of
//! `build_ingredients` and `build_drinks` describe the tables exactly.
//! The tables are proved to satisfy the catalog invariant — every id a
//! drink mentions resolves in the ingredient table, and all ids are
//! distinct — so `build_catalog` returns a well-formed catalog outright.

use vstd::prelude::*;

use crate::catalog::{
    Catalog, Drink, Ingredient, RecipeEntry, catalog_data_wf, distinct_drink_ids, distinct_ids,
    distinct_ingredient_ids, drink_data_wf, ingredients_have,
};

verus! {

/// The id of entry `k` of the built-in ingredient table.
pub open spec fn builtin_ingredient_id(k: int) -> Seq<char> {
    if k == 0 {
        "absinthe"@
    } else if k == 1 {
        "angosturaBitters"@
    } else if k == 2 {
        "apricotBrandy"@
    } else if k == 3 {
        "bourbon"@
    } else if k == 4 {
        "brandy"@
    } else if k == 5 {
        "calvados"@
    } else if k == 6 {
        "campari"@
    } else if k == 7 {
        "cognac"@
    } else if k == 8 {
        "cream"@
    } else if k == 9 {
        "cremeDeCacao"@
    } else if k == 10 {
        "cremeDeMenthe"@
    } else if k == 11 {
        "drambuie"@
    } else if k == 12 {
        "dryVermouth"@
    } else if k == 13 {
        "eggWhite"@
    } else if k == 14 {
        "eggYolk"@
    } else if k == 15 {
        "gin"@
    } else if k == 16 {
        "gommeSyrup"@
    } else if k == 17 {
        "grenadine"@
    } else if k == 18 {
        "lemonJuice"@
    } else if k == 19 {
        "limeJuice"@
    } else if k == 20 {
        "maraschino"@
    } else if k == 21 {
        "mintLeaves"@
    } else if k == 22 {
        "orangeBitters"@
    } else if k == 23 {
        "orangeFlowerWater"@
    } else if k == 24 {
        "orangeJuice"@
    } else if k == 25 {
        "peachBitters"@
    } else if k == 26 {
        "peychaudsBitters"@
    } else if k == 27 {
        "pineappleJuice"@
    } else if k == 28 {
        "port"@
    } else if k == 29 {
        "raspberrySyrup"@
    } else if k == 30 {
        "rye"@
    } else if k == 31 {
        "rum"@
    } else if k == 32 {
        "scotch"@
    } else if k == 33 {
        "simpleSyrup"@
    } else if k == 34 {
        "sodaWater"@
    } else if k == 35 {
        "sugarCube"@
    } else if k == 36 {
        "sweetVermouth"@
    } else if k == 37 {
        "tripleSec"@
    } else if k == 38 {
        "vanillaExtract"@
    } else if k == 39 {
        "vodka"@
    } else if k == 40 {
        "water"@
    } else if k == 41 {
        "whiteRum"@
    } else {
        Seq::empty()
    }
}

/// The display name of entry `k` of the built-in ingredient table.
pub open spec fn builtin_ingredient_name(k: int) -> Seq<char> {
    if k == 0 {
        "Absinthe"@
    } else if k == 1 {
        "Angostura Bitters"@
    } else if k == 2 {
        "Apricot Brandy"@
    } else if k == 3 {
        "Bourbon"@
    } else if k == 4 {
        "Brandy"@
    } else if k == 5 {
        "Calvados"@
    } else if k == 6 {
        "Campari"@
    } else if k == 7 {
        "Cognac"@
    } else if k == 8 {
        "Cream"@
    } else if k == 9 {
        "Crème de Cacao"@
    } else if k == 10 {
        "Crème de Menthe"@
    } else if k == 11 {
        "Drambuie"@
    } else if k == 12 {
        "Dry Vermouth"@
    } else if k == 13 {
        "Egg White"@
    } else if k == 14 {
        "Egg Yolk"@
    } else if k == 15 {
        "Gin"@
    } else if k == 16 {
        "Gomme Syrup"@
    } else if k == 17 {
        "Grenadine"@
    } else if k == 18 {
        "Lemon Juice"@
    } else if k == 19 {
        "Lime Juice"@
    } else if k == 20 {
        "Maraschino Liqueur"@
    } else if k == 21 {
        "Mint Leaves"@
    } else if k == 22 {
        "Orange Bitters"@
    } else if k == 23 {
        "Orange Flower Water"@
    } else if k == 24 {
        "Orange Juice"@
    } else if k == 25 {
        "Peach Bitters"@
    } else if k == 26 {
        "Peychaud's Bitters"@
    } else if k == 27 {
        "Pineapple Juice"@
    } else if k == 28 {
        "Port"@
    } else if k == 29 {
        "Raspberry Syrup"@
    } else if k == 30 {
        "Rye"@
    } else if k == 31 {
        "Rum"@
    } else if k == 32 {
        "Scotch Whisky"@
    } else if k == 33 {
        "Simple Syrup"@
    } else if k == 34 {
        "Soda Water"@
    } else if k == 35 {
        "Sugar Cube"@
    } else if k == 36 {
        "Sweet Vermouth"@
    } else if k == 37 {
        "Triple Sec"@
    } else if k == 38 {
        "Vanilla Extract"@
    } else if k == 39 {
        "Vodka"@
    } else if k == 40 {
        "Water"@
    } else if k == 41 {
        "White Rum"@
    } else {
        Seq::empty()
    }
}

/// The built-in ingredient table, every entry pinned by index.
pub open spec fn builtin_ingredients_ok(ings: Seq<Ingredient>) -> bool {
    &&& ings.len() == 42
    &&& forall|k: int|
        0 <= k < 42 ==> #[trigger] ings[k].id@ == builtin_ingredient_id(k)
            && ings[k].display_name@ == builtin_ingredient_name(k)
}

/// The id of drink `k` of the built-in drink table.
pub open spec fn builtin_drink_id(k: int) -> Seq<char> {
    if k == 0 {
        "alexander"@
    } else if k == 1 {
        "americano"@
    } else if k == 2 {
        "angelFace"@
    } else if k == 3 {
        "aviation"@
    } else if k == 4 {
        "bacardi"@
    } else if k == 5 {
        "betweenTheSheets"@
    } else if k == 6 {
        "casino"@
    } else if k == 7 {
        "cloverClub"@
    } else if k == 8 {
        "daiquiri"@
    } else if k == 9 {
        "derby"@
    } else if k == 10 {
        "martini"@
    } else if k == 11 {
        "ginFizz"@
    } else if k == 12 {
        "johnCollins"@
    } else if k == 13 {
        "manhattan"@
    } else if k == 14 {
        "maryPickford"@
    } else if k == 15 {
        "monkeyGland"@
    } else if k == 16 {
        "negroni"@
    } else if k == 17 {
        "oldFashioned"@
    } else if k == 18 {
        "paradise"@
    } else if k == 19 {
        "plantersPunch"@
    } else if k == 20 {
        "portoFlip"@
    } else if k == 21 {
        "ramosGinFizz"@
    } else if k == 22 {
        "rustyNail"@
    } else if k == 23 {
        "sazerac"@
    } else if k == 24 {
        "screwdriver"@
    } else if k == 25 {
        "sidecar"@
    } else if k == 26 {
        "stinger"@
    } else if k == 27 {
        "tuxedo"@
    } else if k == 28 {
        "whiskeySour"@
    } else if k == 29 {
        "whiteLady"@
    } else {
        Seq::empty()
    }
}

/// The display name of drink `k` of the built-in drink table.
pub open spec fn builtin_drink_name(k: int) -> Seq<char> {
    if k == 0 {
        "Alexander"@
    } else if k == 1 {
        "Americano"@
    } else if k == 2 {
        "Angel Face"@
    } else if k == 3 {
        "Aviation"@
    } else if k == 4 {
        "Bacardi"@
    } else if k == 5 {
        "Between The Sheets"@
    } else if k == 6 {
        "Casino"@
    } else if k == 7 {
        "Clover Club"@
    } else if k == 8 {
        "Daiquiri"@
    } else if k == 9 {
        "Derby"@
    } else if k == 10 {
        "Martini"@
    } else if k == 11 {
        "Gin Fizz"@
    } else if k == 12 {
        "John Collins"@
    } else if k == 13 {
        "Manhattan"@
    } else if k == 14 {
        "Mary Pickford"@
    } else if k == 15 {
        "Monkey Gland"@
    } else if k == 16 {
        "Negroni"@
    } else if k == 17 {
        "Old Fashioned"@
    } else if k == 18 {
        "Paradise"@
    } else if k == 19 {
        "Planter's Punch"@
    } else if k == 20 {
        "Porto Flip"@
    } else if k == 21 {
        "Ramos Gin Fizz"@
    } else if k == 22 {
        "Rusty Nail"@
    } else if k == 23 {
        "Sazerac"@
    } else if k == 24 {
        "Screwdriver"@
    } else if k == 25 {
        "Sidecar"@
    } else if k == 26 {
        "Stinger"@
    } else if k == 27 {
        "Tuxedo"@
    } else if k == 28 {
        "Whiskey Sour"@
    } else if k == 29 {
        "White Lady"@
    } else {
        Seq::empty()
    }
}

/// How many ingredients drink `k` requires.
pub open spec fn builtin_required_len(k: int) -> int {
    if k == 0 {
        3
    } else if k == 1 {
        3
    } else if k == 2 {
        3
    } else if k == 3 {
        3
    } else if k == 4 {
        3
    } else if k == 5 {
        4
    } else if k == 6 {
        4
    } else if k == 7 {
        4
    } else if k == 8 {
        3
    } else if k == 9 {
        3
    } else if k == 10 {
        2
    } else if k == 11 {
        4
    } else if k == 12 {
        4
    } else if k == 13 {
        3
    } else if k == 14 {
        4
    } else if k == 15 {
        4
    } else if k == 16 {
        3
    } else if k == 17 {
        4
    } else if k == 18 {
        3
    } else if k == 19 {
        7
    } else if k == 20 {
        3
    } else if k == 21 {
        9
    } else if k == 22 {
        2
    } else if k == 23 {
        4
    } else if k == 24 {
        2
    } else if k == 25 {
        3
    } else if k == 26 {
        2
    } else if k == 27 {
        5
    } else if k == 28 {
        4
    } else if k == 29 {
        3
    } else {
        0
    }
}

/// The ingredient (as an index into the ingredient table) that drink `k`
/// requires at position `j`.
pub open spec fn builtin_required_ing(k: int, j: int) -> int {
    if k == 0 {
        if j == 0 {
            7
        } else if j == 1 {
            9
        } else if j == 2 {
            8
        } else {
            0
        }
    } else if k == 1 {
        if j == 0 {
            6
        } else if j == 1 {
            36
        } else if j == 2 {
            34
        } else {
            0
        }
    } else if k == 2 {
        if j == 0 {
            15
        } else if j == 1 {
            2
        } else if j == 2 {
            5
        } else {
            0
        }
    } else if k == 3 {
        if j == 0 {
            15
        } else if j == 1 {
            18
        } else if j == 2 {
            20
        } else {
            0
        }
    } else if k == 4 {
        if j == 0 {
            41
        } else if j == 1 {
            19
        } else if j == 2 {
            17
        } else {
            0
        }
    } else if k == 5 {
        if j == 0 {
            41
        } else if j == 1 {
            7
        } else if j == 2 {
            37
        } else if j == 3 {
            18
        } else {
            0
        }
    } else if k == 6 {
        if j == 0 {
            15
        } else if j == 1 {
            20
        } else if j == 2 {
            22
        } else if j == 3 {
            18
        } else {
            0
        }
    } else if k == 7 {
        if j == 0 {
            15
        } else if j == 1 {
            18
        } else if j == 2 {
            29
        } else if j == 3 {
            13
        } else {
            0
        }
    } else if k == 8 {
        if j == 0 {
            41
        } else if j == 1 {
            19
        } else if j == 2 {
            33
        } else {
            0
        }
    } else if k == 9 {
        if j == 0 {
            15
        } else if j == 1 {
            25
        } else if j == 2 {
            21
        } else {
            0
        }
    } else if k == 10 {
        if j == 0 {
            15
        } else if j == 1 {
            12
        } else {
            0
        }
    } else if k == 11 {
        if j == 0 {
            15
        } else if j == 1 {
            18
        } else if j == 2 {
            16
        } else if j == 3 {
            34
        } else {
            0
        }
    } else if k == 12 {
        if j == 0 {
            15
        } else if j == 1 {
            18
        } else if j == 2 {
            33
        } else if j == 3 {
            34
        } else {
            0
        }
    } else if k == 13 {
        if j == 0 {
            30
        } else if j == 1 {
            36
        } else if j == 2 {
            1
        } else {
            0
        }
    } else if k == 14 {
        if j == 0 {
            41
        } else if j == 1 {
            27
        } else if j == 2 {
            17
        } else if j == 3 {
            20
        } else {
            0
        }
    } else if k == 15 {
        if j == 0 {
            15
        } else if j == 1 {
            24
        } else if j == 2 {
            0
        } else if j == 3 {
            17
        } else {
            0
        }
    } else if k == 16 {
        if j == 0 {
            15
        } else if j == 1 {
            36
        } else if j == 2 {
            6
        } else {
            0
        }
    } else if k == 17 {
        if j == 0 {
            3
        } else if j == 1 {
            1
        } else if j == 2 {
            35
        } else if j == 3 {
            40
        } else {
            0
        }
    } else if k == 18 {
        if j == 0 {
            15
        } else if j == 1 {
            2
        } else if j == 2 {
            24
        } else {
            0
        }
    } else if k == 19 {
        if j == 0 {
            31
        } else if j == 1 {
            24
        } else if j == 2 {
            27
        } else if j == 3 {
            18
        } else if j == 4 {
            17
        } else if j == 5 {
            33
        } else if j == 6 {
            1
        } else {
            0
        }
    } else if k == 20 {
        if j == 0 {
            4
        } else if j == 1 {
            28
        } else if j == 2 {
            14
        } else {
            0
        }
    } else if k == 21 {
        if j == 0 {
            15
        } else if j == 1 {
            19
        } else if j == 2 {
            18
        } else if j == 3 {
            33
        } else if j == 4 {
            8
        } else if j == 5 {
            13
        } else if j == 6 {
            23
        } else if j == 7 {
            38
        } else if j == 8 {
            34
        } else {
            0
        }
    } else if k == 22 {
        if j == 0 {
            32
        } else if j == 1 {
            11
        } else {
            0
        }
    } else if k == 23 {
        if j == 0 {
            7
        } else if j == 1 {
            0
        } else if j == 2 {
            35
        } else if j == 3 {
            26
        } else {
            0
        }
    } else if k == 24 {
        if j == 0 {
            39
        } else if j == 1 {
            24
        } else {
            0
        }
    } else if k == 25 {
        if j == 0 {
            7
        } else if j == 1 {
            37
        } else if j == 2 {
            18
        } else {
            0
        }
    } else if k == 26 {
        if j == 0 {
            7
        } else if j == 1 {
            10
        } else {
            0
        }
    } else if k == 27 {
        if j == 0 {
            15
        } else if j == 1 {
            12
        } else if j == 2 {
            20
        } else if j == 3 {
            0
        } else if j == 4 {
            22
        } else {
            0
        }
    } else if k == 28 {
        if j == 0 {
            3
        } else if j == 1 {
            18
        } else if j == 2 {
            16
        } else if j == 3 {
            13
        } else {
            0
        }
    } else if k == 29 {
        if j == 0 {
            15
        } else if j == 1 {
            37
        } else if j == 2 {
            18
        } else {
            0
        }
    } else {
        0
    }
}

/// The amount of recipe line `j` of drink `k`.
pub open spec fn builtin_amount(k: int, j: int) -> Seq<char> {
    if k == 0 {
        if j == 0 {
            "3 cl"@
        } else if j == 1 {
            "3 cl"@
        } else if j == 2 {
            "3 cl"@
        } else {
            Seq::empty()
        }
    } else if k == 1 {
        if j == 0 {
            "3 cl"@
        } else if j == 1 {
            "3 cl"@
        } else if j == 2 {
            "splash"@
        } else {
            Seq::empty()
        }
    } else if k == 2 {
        if j == 0 {
            "3 cl"@
        } else if j == 1 {
            "3 cl"@
        } else if j == 2 {
            "3 cl"@
        } else {
            Seq::empty()
        }
    } else if k == 3 {
        if j == 0 {
            "4.5 cl"@
        } else if j == 1 {
            "1.5 cl"@
        } else if j == 2 {
            "1.5 cl"@
        } else {
            Seq::empty()
        }
    } else if k == 4 {
        if j == 0 {
            "4.5 cl"@
        } else if j == 1 {
            "2 cl"@
        } else if j == 2 {
            "1 cl"@
        } else {
            Seq::empty()
        }
    } else if k == 5 {
        if j == 0 {
            "3 cl"@
        } else if j == 1 {
            "3 cl"@
        } else if j == 2 {
            "3 cl"@
        } else if j == 3 {
            "2 cl"@
        } else {
            Seq::empty()
        }
    } else if k == 6 {
        if j == 0 {
            "4 cl"@
        } else if j == 1 {
            "1 cl"@
        } else if j == 2 {
            "1 cl"@
        } else if j == 3 {
            "1 cl"@
        } else {
            Seq::empty()
        }
    } else if k == 7 {
        if j == 0 {
            "4.5 cl"@
        } else if j == 1 {
            "1.5 cl"@
        } else if j == 2 {
            "1.5 cl"@
        } else if j == 3 {
            "1 cl"@
        } else {
            Seq::empty()
        }
    } else if k == 8 {
        if j == 0 {
            "4.5 cl"@
        } else if j == 1 {
            "2.5 cl"@
        } else if j == 2 {
            "1.5 cl"@
        } else {
            Seq::empty()
        }
    } else if k == 9 {
        if j == 0 {
            "6 cl"@
        } else if j == 1 {
            "2 cl"@
        } else if j == 2 {
            "2 cl"@
        } else {
            Seq::empty()
        }
    } else if k == 10 {
        if j == 0 {
            "6 cl"@
        } else if j == 1 {
            "1 cl"@
        } else {
            Seq::empty()
        }
    } else if k == 11 {
        if j == 0 {
            "4.5 cl"@
        } else if j == 1 {
            "3 cl"@
        } else if j == 2 {
            "1 cl"@
        } else if j == 3 {
            "8 cl"@
        } else {
            Seq::empty()
        }
    } else if k == 12 {
        if j == 0 {
            "4.5 cl"@
        } else if j == 1 {
            "3 cl"@
        } else if j == 2 {
            "1.5 cl"@
        } else if j == 3 {
            "6 cl"@
        } else {
            Seq::empty()
        }
    } else if k == 13 {
        if j == 0 {
            "5 cl"@
        } else if j == 1 {
            "2 cl"@
        } else if j == 2 {
            "1 dash"@
        } else {
            Seq::empty()
        }
    } else if k == 14 {
        if j == 0 {
            "6 cl"@
        } else if j == 1 {
            "6 cl"@
        } else if j == 2 {
            "1 cl"@
        } else if j == 3 {
            "1 cl"@
        } else {
            Seq::empty()
        }
    } else if k == 15 {
        if j == 0 {
            "5 cl"@
        } else if j == 1 {
            "3 cl"@
        } else if j == 2 {
            "2 cl"@
        } else if j == 3 {
            "2 cl"@
        } else {
            Seq::empty()
        }
    } else if k == 16 {
        if j == 0 {
            "3 cl"@
        } else if j == 1 {
            "3 cl"@
        } else if j == 2 {
            "3 cl"@
        } else {
            Seq::empty()
        }
    } else if k == 17 {
        if j == 0 {
            "4.5 cl"@
        } else if j == 1 {
            "2 dashes"@
        } else if j == 2 {
            "1"@
        } else if j == 3 {
            "few dashes"@
        } else {
            Seq::empty()
        }
    } else if k == 18 {
        if j == 0 {
            "3.5 cl"@
        } else if j == 1 {
            "2 cl"@
        } else if j == 2 {
            "1.5 cl"@
        } else {
            Seq::empty()
        }
    } else if k == 19 {
        if j == 0 {
            "4.5 cl"@
        } else if j == 1 {
            "3.5 cl"@
        } else if j == 2 {
            "3.5 cl"@
        } else if j == 3 {
            "2 cl"@
        } else if j == 4 {
            "1 cl"@
        } else if j == 5 {
            "1 cl"@
        } else if j == 6 {
            "few dashes"@
        } else {
            Seq::empty()
        }
    } else if k == 20 {
        if j == 0 {
            "1.5 cl"@
        } else if j == 1 {
            "4.5 cl"@
        } else if j == 2 {
            "1 cl"@
        } else {
            Seq::empty()
        }
    } else if k == 21 {
        if j == 0 {
            "4.5 cl"@
        } else if j == 1 {
            "1.5 cl"@
        } else if j == 2 {
            "1.5 cl"@
        } else if j == 3 {
            "3 cl"@
        } else if j == 4 {
            "6 cl"@
        } else if j == 5 {
            "1"@
        } else if j == 6 {
            "3 dashes"@
        } else if j == 7 {
            "2 drops"@
        } else if j == 8 {
            "top"@
        } else {
            Seq::empty()
        }
    } else if k == 22 {
        if j == 0 {
            "4.5 cl"@
        } else if j == 1 {
            "2.5 cl"@
        } else {
            Seq::empty()
        }
    } else if k == 23 {
        if j == 0 {
            "5 cl"@
        } else if j == 1 {
            "1 cl"@
        } else if j == 2 {
            "1"@
        } else if j == 3 {
            "2 dashes"@
        } else {
            Seq::empty()
        }
    } else if k == 24 {
        if j == 0 {
            "5 cl"@
        } else if j == 1 {
            "10 cl"@
        } else {
            Seq::empty()
        }
    } else if k == 25 {
        if j == 0 {
            "5 cl"@
        } else if j == 1 {
            "2 cl"@
        } else if j == 2 {
            "2 cl"@
        } else {
            Seq::empty()
        }
    } else if k == 26 {
        if j == 0 {
            "5 cl"@
        } else if j == 1 {
            "2 cl"@
        } else {
            Seq::empty()
        }
    } else if k == 27 {
        if j == 0 {
            "3 cl"@
        } else if j == 1 {
            "3 cl"@
        } else if j == 2 {
            "0.5 barspoon"@
        } else if j == 3 {
            "0.25 barspoon"@
        } else if j == 4 {
            "3 dashes"@
        } else {
            Seq::empty()
        }
    } else if k == 28 {
        if j == 0 {
            "4.5 cl"@
        } else if j == 1 {
            "3 cl"@
        } else if j == 2 {
            "1.5 cl"@
        } else if j == 3 {
            "1 dash"@
        } else {
            Seq::empty()
        }
    } else if k == 29 {
        if j == 0 {
            "4 cl"@
        } else if j == 1 {
            "3 cl"@
        } else if j == 2 {
            "2 cl"@
        } else {
            Seq::empty()
        }
    } else {
        Seq::empty()
    }
}

/// The built-in drink table, every entry pinned by index: id, display
/// name, required ingredients (as ingredient-table indices), and recipe
/// amounts.
pub open spec fn builtin_drinks_ok(drinks: Seq<Drink>) -> bool {
    &&& drinks.len() == 30
    &&& forall|k: int| #![trigger drinks[k]]
        0 <= k < 30 ==> {
            &&& drinks[k].id@ == builtin_drink_id(k)
            &&& drinks[k].display_name@ == builtin_drink_name(k)
            &&& drinks[k].required@.len() == builtin_required_len(k)
            &&& (forall|j: int|
                0 <= j < builtin_required_len(k) ==> #[trigger] drinks[k].required@[j]@
                    == builtin_ingredient_id(builtin_required_ing(k, j)))
            &&& drinks[k].recipe@.len() == builtin_required_len(k)
            &&& (forall|j: int|
                0 <= j < builtin_required_len(k) ==> #[trigger] drinks[k].recipe@[j].ingredient_id@
                    == builtin_ingredient_id(builtin_required_ing(k, j))
                    && drinks[k].recipe@[j].amount@ == builtin_amount(k, j))
        }
}

/// Build the fixed ingredient table.
#[verifier::rlimit(100)]
pub fn build_ingredients() -> (r: Vec<Ingredient>)
    ensures
        builtin_ingredients_ok(r@),
{
    let mut ings: Vec<Ingredient> = Vec::new();
    ings.push(
        Ingredient {
            id: "absinthe".to_owned(),
            display_name: "Absinthe".to_owned(),
        },
    );
    ings.push(
        Ingredient {
            id: "angosturaBitters".to_owned(),
            display_name: "Angostura Bitters".to_owned(),
        },
    );
    ings.push(
        Ingredient {
            id: "apricotBrandy".to_owned(),
            display_name: "Apricot Brandy".to_owned(),
        },
    );
    ings.push(
        Ingredient {
            id: "bourbon".to_owned(),
            display_name: "Bourbon".to_owned(),
        },
    );
    ings.push(
        Ingredient {
            id: "brandy".to_owned(),
            display_name: "Brandy".to_owned(),
        },
    );
    ings.push(
        Ingredient {
            id: "calvados".to_owned(),
            display_name: "Calvados".to_owned(),
        },
    );
    ings.push(
        Ingredient {
            id: "campari".to_owned(),
            display_name: "Campari".to_owned(),
        },
    );
    ings.push(
        Ingredient {
            id: "cognac".to_owned(),
            display_name: "Cognac".to_owned(),
        },
    );
    ings.push(
        Ingredient {
            id: "cream".to_owned(),
            display_name: "Cream".to_owned(),
        },
    );
    ings.push(
        Ingredient {
            id: "cremeDeCacao".to_owned(),
            display_name: "Crème de Cacao".to_owned(),
        },
    );
    ings.push(
        Ingredient {
            id: "cremeDeMenthe".to_owned(),
            display_name: "Crème de Menthe".to_owned(),
        },
    );
    ings.push(
        Ingredient {
            id: "drambuie".to_owned(),
            display_name: "Drambuie".to_owned(),
        },
    );
    ings.push(
        Ingredient {
            id: "dryVermouth".to_owned(),
            display_name: "Dry Vermouth".to_owned(),
        },
    );
    ings.push(
        Ingredient {
            id: "eggWhite".to_owned(),
            display_name: "Egg White".to_owned(),
        },
    );
    ings.push(
        Ingredient {
            id: "eggYolk".to_owned(),
            display_name: "Egg Yolk".to_owned(),
        },
    );
    ings.push(
        Ingredient {
            id: "gin".to_owned(),
            display_name: "Gin".to_owned(),
        },
    );
    ings.push(
        Ingredient {
            id: "gommeSyrup".to_owned(),
            display_name: "Gomme Syrup".to_owned(),
        },
    );
    ings.push(
        Ingredient {
            id: "grenadine".to_owned(),
            display_name: "Grenadine".to_owned(),
        },
    );
    ings.push(
        Ingredient {
            id: "lemonJuice".to_owned(),
            display_name: "Lemon Juice".to_owned(),
        },
    );
    ings.push(
        Ingredient {
            id: "limeJuice".to_owned(),
            display_name: "Lime Juice".to_owned(),
        },
    );
    ings.push(
        Ingredient {
            id: "maraschino".to_owned(),
            display_name: "Maraschino Liqueur".to_owned(),
        },
    );
    ings.push(
        Ingredient {
            id: "mintLeaves".to_owned(),
            display_name: "Mint Leaves".to_owned(),
        },
    );
    ings.push(
        Ingredient {
            id: "orangeBitters".to_owned(),
            display_name: "Orange Bitters".to_owned(),
        },
    );
    ings.push(
        Ingredient {
            id: "orangeFlowerWater".to_owned(),
            display_name: "Orange Flower Water".to_owned(),
        },
    );
    ings.push(
        Ingredient {
            id: "orangeJuice".to_owned(),
            display_name: "Orange Juice".to_owned(),
        },
    );
    ings.push(
        Ingredient {
            id: "peachBitters".to_owned(),
            display_name: "Peach Bitters".to_owned(),
        },
    );
    ings.push(
        Ingredient {
            id: "peychaudsBitters".to_owned(),
            display_name: "Peychaud's Bitters".to_owned(),
        },
    );
    ings.push(
        Ingredient {
            id: "pineappleJuice".to_owned(),
            display_name: "Pineapple Juice".to_owned(),
        },
    );
    ings.push(
        Ingredient {
            id: "port".to_owned(),
            display_name: "Port".to_owned(),
        },
    );
    ings.push(
        Ingredient {
            id: "raspberrySyrup".to_owned(),
            display_name: "Raspberry Syrup".to_owned(),
        },
    );
    ings.push(
        Ingredient {
            id: "rye".to_owned(),
            display_name: "Rye".to_owned(),
        },
    );
    ings.push(
        Ingredient {
            id: "rum".to_owned(),
            display_name: "Rum".to_owned(),
        },
    );
    ings.push(
        Ingredient {
            id: "scotch".to_owned(),
            display_name: "Scotch Whisky".to_owned(),
        },
    );
    ings.push(
        Ingredient {
            id: "simpleSyrup".to_owned(),
            display_name: "Simple Syrup".to_owned(),
        },
    );
    ings.push(
        Ingredient {
            id: "sodaWater".to_owned(),
            display_name: "Soda Water".to_owned(),
        },
    );
    ings.push(
        Ingredient {
            id: "sugarCube".to_owned(),
            display_name: "Sugar Cube".to_owned(),
        },
    );
    ings.push(
        Ingredient {
            id: "sweetVermouth".to_owned(),
            display_name: "Sweet Vermouth".to_owned(),
        },
    );
    ings.push(
        Ingredient {
            id: "tripleSec".to_owned(),
            display_name: "Triple Sec".to_owned(),
        },
    );
    ings.push(
        Ingredient {
            id: "vanillaExtract".to_owned(),
            display_name: "Vanilla Extract".to_owned(),
        },
    );
    ings.push(
        Ingredient {
            id: "vodka".to_owned(),
            display_name: "Vodka".to_owned(),
        },
    );
    ings.push(
        Ingredient {
            id: "water".to_owned(),
            display_name: "Water".to_owned(),
        },
    );
    ings.push(
        Ingredient {
            id: "whiteRum".to_owned(),
            display_name: "White Rum".to_owned(),
        },
    );
    proof {
        assert forall|k: int| 0 <= k < 42 implies #[trigger] ings@[k].id@
            == builtin_ingredient_id(k) && ings@[k].display_name@ == builtin_ingredient_name(
            k,
        ) by {
            assert(ings@[0].id@ == "absinthe"@);
            assert(ings@[0].display_name@ == "Absinthe"@);
            assert(ings@[1].id@ == "angosturaBitters"@);
            assert(ings@[1].display_name@ == "Angostura Bitters"@);
            assert(ings@[2].id@ == "apricotBrandy"@);
            assert(ings@[2].display_name@ == "Apricot Brandy"@);
            assert(ings@[3].id@ == "bourbon"@);
            assert(ings@[3].display_name@ == "Bourbon"@);
            assert(ings@[4].id@ == "brandy"@);
            assert(ings@[4].display_name@ == "Brandy"@);
            assert(ings@[5].id@ == "calvados"@);
            assert(ings@[5].display_name@ == "Calvados"@);
            assert(ings@[6].id@ == "campari"@);
            assert(ings@[6].display_name@ == "Campari"@);
            assert(ings@[7].id@ == "cognac"@);
            assert(ings@[7].display_name@ == "Cognac"@);
            assert(ings@[8].id@ == "cream"@);
            assert(ings@[8].display_name@ == "Cream"@);
            assert(ings@[9].id@ == "cremeDeCacao"@);
            assert(ings@[9].display_name@ == "Crème de Cacao"@);
            assert(ings@[10].id@ == "cremeDeMenthe"@);
            assert(ings@[10].display_name@ == "Crème de Menthe"@);
            assert(ings@[11].id@ == "drambuie"@);
            assert(ings@[11].display_name@ == "Drambuie"@);
            assert(ings@[12].id@ == "dryVermouth"@);
            assert(ings@[12].display_name@ == "Dry Vermouth"@);
            assert(ings@[13].id@ == "eggWhite"@);
            assert(ings@[13].display_name@ == "Egg White"@);
            assert(ings@[14].id@ == "eggYolk"@);
            assert(ings@[14].display_name@ == "Egg Yolk"@);
            assert(ings@[15].id@ == "gin"@);
            assert(ings@[15].display_name@ == "Gin"@);
            assert(ings@[16].id@ == "gommeSyrup"@);
            assert(ings@[16].display_name@ == "Gomme Syrup"@);
            assert(ings@[17].id@ == "grenadine"@);
            assert(ings@[17].display_name@ == "Grenadine"@);
            assert(ings@[18].id@ == "lemonJuice"@);
            assert(ings@[18].display_name@ == "Lemon Juice"@);
            assert(ings@[19].id@ == "limeJuice"@);
            assert(ings@[19].display_name@ == "Lime Juice"@);
            assert(ings@[20].id@ == "maraschino"@);
            assert(ings@[20].display_name@ == "Maraschino Liqueur"@);
            assert(ings@[21].id@ == "mintLeaves"@);
            assert(ings@[21].display_name@ == "Mint Leaves"@);
            assert(ings@[22].id@ == "orangeBitters"@);
            assert(ings@[22].display_name@ == "Orange Bitters"@);
            assert(ings@[23].id@ == "orangeFlowerWater"@);
            assert(ings@[23].display_name@ == "Orange Flower Water"@);
            assert(ings@[24].id@ == "orangeJuice"@);
            assert(ings@[24].display_name@ == "Orange Juice"@);
            assert(ings@[25].id@ == "peachBitters"@);
            assert(ings@[25].display_name@ == "Peach Bitters"@);
            assert(ings@[26].id@ == "peychaudsBitters"@);
            assert(ings@[26].display_name@ == "Peychaud's Bitters"@);
            assert(ings@[27].id@ == "pineappleJuice"@);
            assert(ings@[27].display_name@ == "Pineapple Juice"@);
            assert(ings@[28].id@ == "port"@);
            assert(ings@[28].display_name@ == "Port"@);
            assert(ings@[29].id@ == "raspberrySyrup"@);
            assert(ings@[29].display_name@ == "Raspberry Syrup"@);
            assert(ings@[30].id@ == "rye"@);
            assert(ings@[30].display_name@ == "Rye"@);
            assert(ings@[31].id@ == "rum"@);
            assert(ings@[31].display_name@ == "Rum"@);
            assert(ings@[32].id@ == "scotch"@);
            assert(ings@[32].display_name@ == "Scotch Whisky"@);
            assert(ings@[33].id@ == "simpleSyrup"@);
            assert(ings@[33].display_name@ == "Simple Syrup"@);
            assert(ings@[34].id@ == "sodaWater"@);
            assert(ings@[34].display_name@ == "Soda Water"@);
            assert(ings@[35].id@ == "sugarCube"@);
            assert(ings@[35].display_name@ == "Sugar Cube"@);
            assert(ings@[36].id@ == "sweetVermouth"@);
            assert(ings@[36].display_name@ == "Sweet Vermouth"@);
            assert(ings@[37].id@ == "tripleSec"@);
            assert(ings@[37].display_name@ == "Triple Sec"@);
            assert(ings@[38].id@ == "vanillaExtract"@);
            assert(ings@[38].display_name@ == "Vanilla Extract"@);
            assert(ings@[39].id@ == "vodka"@);
            assert(ings@[39].display_name@ == "Vodka"@);
            assert(ings@[40].id@ == "water"@);
            assert(ings@[40].display_name@ == "Water"@);
            assert(ings@[41].id@ == "whiteRum"@);
            assert(ings@[41].display_name@ == "White Rum"@);
        }
    }
    ings
}

/// Build the drink record of Alexander.
fn drink_alexander() -> (d: Drink)
    ensures
        d.id@ == "alexander"@,
        d.display_name@ == "Alexander"@,
        d.required@.len() == 3,
        d.required@[0]@ == "cognac"@,
        d.required@[1]@ == "cremeDeCacao"@,
        d.required@[2]@ == "cream"@,
        d.recipe@.len() == 3,
        d.recipe@[0].ingredient_id@ == "cognac"@,
        d.recipe@[0].amount@ == "3 cl"@,
        d.recipe@[1].ingredient_id@ == "cremeDeCacao"@,
        d.recipe@[1].amount@ == "3 cl"@,
        d.recipe@[2].ingredient_id@ == "cream"@,
        d.recipe@[2].amount@ == "3 cl"@,
{
    let mut required: Vec<String> = Vec::new();
    required.push("cognac".to_owned());
    required.push("cremeDeCacao".to_owned());
    required.push("cream".to_owned());
    let mut recipe: Vec<RecipeEntry> = Vec::new();
    recipe.push(
        RecipeEntry {
            ingredient_id: "cognac".to_owned(),
            amount: "3 cl".to_owned(),
        },
    );
    recipe.push(
        RecipeEntry {
            ingredient_id: "cremeDeCacao".to_owned(),
            amount: "3 cl".to_owned(),
        },
    );
    recipe.push(
        RecipeEntry {
            ingredient_id: "cream".to_owned(),
            amount: "3 cl".to_owned(),
        },
    );
    Drink {
        id: "alexander".to_owned(),
        display_name: "Alexander".to_owned(),
        required,
        recipe,
    }
}

/// Build the drink record of Americano.
fn drink_americano() -> (d: Drink)
    ensures
        d.id@ == "americano"@,
        d.display_name@ == "Americano"@,
        d.required@.len() == 3,
        d.required@[0]@ == "campari"@,
        d.required@[1]@ == "sweetVermouth"@,
        d.required@[2]@ == "sodaWater"@,
        d.recipe@.len() == 3,
        d.recipe@[0].ingredient_id@ == "campari"@,
        d.recipe@[0].amount@ == "3 cl"@,
        d.recipe@[1].ingredient_id@ == "sweetVermouth"@,
        d.recipe@[1].amount@ == "3 cl"@,
        d.recipe@[2].ingredient_id@ == "sodaWater"@,
        d.recipe@[2].amount@ == "splash"@,
{
    let mut required: Vec<String> = Vec::new();
    required.push("campari".to_owned());
    required.push("sweetVermouth".to_owned());
    required.push("sodaWater".to_owned());
    let mut recipe: Vec<RecipeEntry> = Vec::new();
    recipe.push(
        RecipeEntry {
            ingredient_id: "campari".to_owned(),
            amount: "3 cl".to_owned(),
        },
    );
    recipe.push(
        RecipeEntry {
            ingredient_id: "sweetVermouth".to_owned(),
            amount: "3 cl".to_owned(),
        },
    );
    recipe.push(
        RecipeEntry {
            ingredient_id: "sodaWater".to_owned(),
            amount: "splash".to_owned(),
        },
    );
    Drink {
        id: "americano".to_owned(),
        display_name: "Americano".to_owned(),
        required,
        recipe,
    }
}

/// Build the drink record of Angel Face.
fn drink_angel_face() -> (d: Drink)
    ensures
        d.id@ == "angelFace"@,
        d.display_name@ == "Angel Face"@,
        d.required@.len() == 3,
        d.required@[0]@ == "gin"@,
        d.required@[1]@ == "apricotBrandy"@,
        d.required@[2]@ == "calvados"@,
        d.recipe@.len() == 3,
        d.recipe@[0].ingredient_id@ == "gin"@,
        d.recipe@[0].amount@ == "3 cl"@,
        d.recipe@[1].ingredient_id@ == "apricotBrandy"@,
        d.recipe@[1].amount@ == "3 cl"@,
        d.recipe@[2].ingredient_id@ == "calvados"@,
        d.recipe@[2].amount@ == "3 cl"@,
{
    let mut required: Vec<String> = Vec::new();
    required.push("gin".to_owned());
    required.push("apricotBrandy".to_owned());
    required.push("calvados".to_owned());
    let mut recipe: Vec<RecipeEntry> = Vec::new();
    recipe.push(
        RecipeEntry {
            ingredient_id: "gin".to_owned(),
            amount: "3 cl".to_owned(),
        },
    );
    recipe.push(
        RecipeEntry {
            ingredient_id: "apricotBrandy".to_owned(),
            amount: "3 cl".to_owned(),
        },
    );
    recipe.push(
        RecipeEntry {
            ingredient_id: "calvados".to_owned(),
            amount: "3 cl".to_owned(),
        },
    );
    Drink {
        id: "angelFace".to_owned(),
        display_name: "Angel Face".to_owned(),
        required,
        recipe,
    }
}

/// Build the drink record of Aviation.
fn drink_aviation() -> (d: Drink)
    ensures
        d.id@ == "aviation"@,
        d.display_name@ == "Aviation"@,
        d.required@.len() == 3,
        d.required@[0]@ == "gin"@,
        d.required@[1]@ == "lemonJuice"@,
        d.required@[2]@ == "maraschino"@,
        d.recipe@.len() == 3,
        d.recipe@[0].ingredient_id@ == "gin"@,
        d.recipe@[0].amount@ == "4.5 cl"@,
        d.recipe@[1].ingredient_id@ == "lemonJuice"@,
        d.recipe@[1].amount@ == "1.5 cl"@,
        d.recipe@[2].ingredient_id@ == "maraschino"@,
        d.recipe@[2].amount@ == "1.5 cl"@,
{
    let mut required: Vec<String> = Vec::new();
    required.push("gin".to_owned());
    required.push("lemonJuice".to_owned());
    required.push("maraschino".to_owned());
    let mut recipe: Vec<RecipeEntry> = Vec::new();
    recipe.push(
        RecipeEntry {
            ingredient_id: "gin".to_owned(),
            amount: "4.5 cl".to_owned(),
        },
    );
    recipe.push(
        RecipeEntry {
            ingredient_id: "lemonJuice".to_owned(),
            amount: "1.5 cl".to_owned(),
        },
    );
    recipe.push(
        RecipeEntry {
            ingredient_id: "maraschino".to_owned(),
            amount: "1.5 cl".to_owned(),
        },
    );
    Drink {
        id: "aviation".to_owned(),
        display_name: "Aviation".to_owned(),
        required,
        recipe,
    }
}

/// Build the drink record of Bacardi.
fn drink_bacardi() -> (d: Drink)
    ensures
        d.id@ == "bacardi"@,
        d.display_name@ == "Bacardi"@,
        d.required@.len() == 3,
        d.required@[0]@ == "whiteRum"@,
        d.required@[1]@ == "limeJuice"@,
        d.required@[2]@ == "grenadine"@,
        d.recipe@.len() == 3,
        d.recipe@[0].ingredient_id@ == "whiteRum"@,
        d.recipe@[0].amount@ == "4.5 cl"@,
        d.recipe@[1].ingredient_id@ == "limeJuice"@,
        d.recipe@[1].amount@ == "2 cl"@,
        d.recipe@[2].ingredient_id@ == "grenadine"@,
        d.recipe@[2].amount@ == "1 cl"@,
{
    let mut required: Vec<String> = Vec::new();
    required.push("whiteRum".to_owned());
    required.push("limeJuice".to_owned());
    required.push("grenadine".to_owned());
    let mut recipe: Vec<RecipeEntry> = Vec::new();
    recipe.push(
        RecipeEntry {
            ingredient_id: "whiteRum".to_owned(),
            amount: "4.5 cl".to_owned(),
        },
    );
    recipe.push(
        RecipeEntry {
            ingredient_id: "limeJuice".to_owned(),
            amount: "2 cl".to_owned(),
        },
    );
    recipe.push(
        RecipeEntry {
            ingredient_id: "grenadine".to_owned(),
            amount: "1 cl".to_owned(),
        },
    );
    Drink {
        id: "bacardi".to_owned(),
        display_name: "Bacardi".to_owned(),
        required,
        recipe,
    }
}

/// Build the drink record of Between The Sheets.
fn drink_between_the_sheets() -> (d: Drink)
    ensures
        d.id@ == "betweenTheSheets"@,
        d.display_name@ == "Between The Sheets"@,
        d.required@.len() == 4,
        d.required@[0]@ == "whiteRum"@,
        d.required@[1]@ == "cognac"@,
        d.required@[2]@ == "tripleSec"@,
        d.required@[3]@ == "lemonJuice"@,
        d.recipe@.len() == 4,
        d.recipe@[0].ingredient_id@ == "whiteRum"@,
        d.recipe@[0].amount@ == "3 cl"@,
        d.recipe@[1].ingredient_id@ == "cognac"@,
        d.recipe@[1].amount@ == "3 cl"@,
        d.recipe@[2].ingredient_id@ == "tripleSec"@,
        d.recipe@[2].amount@ == "3 cl"@,
        d.recipe@[3].ingredient_id@ == "lemonJuice"@,
        d.recipe@[3].amount@ == "2 cl"@,
{
    let mut required: Vec<String> = Vec::new();
    required.push("whiteRum".to_owned());
    required.push("cognac".to_owned());
    required.push("tripleSec".to_owned());
    required.push("lemonJuice".to_owned());
    let mut recipe: Vec<RecipeEntry> = Vec::new();
    recipe.push(
        RecipeEntry {
            ingredient_id: "whiteRum".to_owned(),
            amount: "3 cl".to_owned(),
        },
    );
    recipe.push(
        RecipeEntry {
            ingredient_id: "cognac".to_owned(),
            amount: "3 cl".to_owned(),
        },
    );
    recipe.push(
        RecipeEntry {
            ingredient_id: "tripleSec".to_owned(),
            amount: "3 cl".to_owned(),
        },
    );
    recipe.push(
        RecipeEntry {
            ingredient_id: "lemonJuice".to_owned(),
            amount: "2 cl".to_owned(),
        },
    );
    Drink {
        id: "betweenTheSheets".to_owned(),
        display_name: "Between The Sheets".to_owned(),
        required,
        recipe,
    }
}

/// Build the drink record of Casino.
fn drink_casino() -> (d: Drink)
    ensures
        d.id@ == "casino"@,
        d.display_name@ == "Casino"@,
        d.required@.len() == 4,
        d.required@[0]@ == "gin"@,
        d.required@[1]@ == "maraschino"@,
        d.required@[2]@ == "orangeBitters"@,
        d.required@[3]@ == "lemonJuice"@,
        d.recipe@.len() == 4,
        d.recipe@[0].ingredient_id@ == "gin"@,
        d.recipe@[0].amount@ == "4 cl"@,
        d.recipe@[1].ingredient_id@ == "maraschino"@,
        d.recipe@[1].amount@ == "1 cl"@,
        d.recipe@[2].ingredient_id@ == "orangeBitters"@,
        d.recipe@[2].amount@ == "1 cl"@,
        d.recipe@[3].ingredient_id@ == "lemonJuice"@,
        d.recipe@[3].amount@ == "1 cl"@,
{
    let mut required: Vec<String> = Vec::new();
    required.push("gin".to_owned());
    required.push("maraschino".to_owned());
    required.push("orangeBitters".to_owned());
    required.push("lemonJuice".to_owned());
    let mut recipe: Vec<RecipeEntry> = Vec::new();
    recipe.push(
        RecipeEntry {
            ingredient_id: "gin".to_owned(),
            amount: "4 cl".to_owned(),
        },
    );
    recipe.push(
        RecipeEntry {
            ingredient_id: "maraschino".to_owned(),
            amount: "1 cl".to_owned(),
        },
    );
    recipe.push(
        RecipeEntry {
            ingredient_id: "orangeBitters".to_owned(),
            amount: "1 cl".to_owned(),
        },
    );
    recipe.push(
        RecipeEntry {
            ingredient_id: "lemonJuice".to_owned(),
            amount: "1 cl".to_owned(),
        },
    );
    Drink {
        id: "casino".to_owned(),
        display_name: "Casino".to_owned(),
        required,
        recipe,
    }
}

/// Build the drink record of Clover Club.
fn drink_clover_club() -> (d: Drink)
    ensures
        d.id@ == "cloverClub"@,
        d.display_name@ == "Clover Club"@,
        d.required@.len() == 4,
        d.required@[0]@ == "gin"@,
        d.required@[1]@ == "lemonJuice"@,
        d.required@[2]@ == "raspberrySyrup"@,
        d.required@[3]@ == "eggWhite"@,
        d.recipe@.len() == 4,
        d.recipe@[0].ingredient_id@ == "gin"@,
        d.recipe@[0].amount@ == "4.5 cl"@,
        d.recipe@[1].ingredient_id@ == "lemonJuice"@,
        d.recipe@[1].amount@ == "1.5 cl"@,
        d.recipe@[2].ingredient_id@ == "raspberrySyrup"@,
        d.recipe@[2].amount@ == "1.5 cl"@,
        d.recipe@[3].ingredient_id@ == "eggWhite"@,
        d.recipe@[3].amount@ == "1 cl"@,
{
    let mut required: Vec<String> = Vec::new();
    required.push("gin".to_owned());
    required.push("lemonJuice".to_owned());
    required.push("raspberrySyrup".to_owned());
    required.push("eggWhite".to_owned());
    let mut recipe: Vec<RecipeEntry> = Vec::new();
    recipe.push(
        RecipeEntry {
            ingredient_id: "gin".to_owned(),
            amount: "4.5 cl".to_owned(),
        },
    );
    recipe.push(
        RecipeEntry {
            ingredient_id: "lemonJuice".to_owned(),
            amount: "1.5 cl".to_owned(),
        },
    );
    recipe.push(
        RecipeEntry {
            ingredient_id: "raspberrySyrup".to_owned(),
            amount: "1.5 cl".to_owned(),
        },
    );
    recipe.push(
        RecipeEntry {
            ingredient_id: "eggWhite".to_owned(),
            amount: "1 cl".to_owned(),
        },
    );
    Drink {
        id: "cloverClub".to_owned(),
        display_name: "Clover Club".to_owned(),
        required,
        recipe,
    }
}

/// Build the drink record of Daiquiri.
fn drink_daiquiri() -> (d: Drink)
    ensures
        d.id@ == "daiquiri"@,
        d.display_name@ == "Daiquiri"@,
        d.required@.len() == 3,
        d.required@[0]@ == "whiteRum"@,
        d.required@[1]@ == "limeJuice"@,
        d.required@[2]@ == "simpleSyrup"@,
        d.recipe@.len() == 3,
        d.recipe@[0].ingredient_id@ == "whiteRum"@,
        d.recipe@[0].amount@ == "4.5 cl"@,
        d.recipe@[1].ingredient_id@ == "limeJuice"@,
        d.recipe@[1].amount@ == "2.5 cl"@,
        d.recipe@[2].ingredient_id@ == "simpleSyrup"@,
        d.recipe@[2].amount@ == "1.5 cl"@,
{
    let mut required: Vec<String> = Vec::new();
    required.push("whiteRum".to_owned());
    required.push("limeJuice".to_owned());
    required.push("simpleSyrup".to_owned());
    let mut recipe: Vec<RecipeEntry> = Vec::new();
    recipe.push(
        RecipeEntry {
            ingredient_id: "whiteRum".to_owned(),
            amount: "4.5 cl".to_owned(),
        },
    );
    recipe.push(
        RecipeEntry {
            ingredient_id: "limeJuice".to_owned(),
            amount: "2.5 cl".to_owned(),
        },
    );
    recipe.push(
        RecipeEntry {
            ingredient_id: "simpleSyrup".to_owned(),
            amount: "1.5 cl".to_owned(),
        },
    );
    Drink {
        id: "daiquiri".to_owned(),
        display_name: "Daiquiri".to_owned(),
        required,
        recipe,
    }
}

/// Build the drink record of Derby.
fn drink_derby() -> (d: Drink)
    ensures
        d.id@ == "derby"@,
        d.display_name@ == "Derby"@,
        d.required@.len() == 3,
        d.required@[0]@ == "gin"@,
        d.required@[1]@ == "peachBitters"@,
        d.required@[2]@ == "mintLeaves"@,
        d.recipe@.len() == 3,
        d.recipe@[0].ingredient_id@ == "gin"@,
        d.recipe@[0].amount@ == "6 cl"@,
        d.recipe@[1].ingredient_id@ == "peachBitters"@,
        d.recipe@[1].amount@ == "2 cl"@,
        d.recipe@[2].ingredient_id@ == "mintLeaves"@,
        d.recipe@[2].amount@ == "2 cl"@,
{
    let mut required: Vec<String> = Vec::new();
    required.push("gin".to_owned());
    required.push("peachBitters".to_owned());
    required.push("mintLeaves".to_owned());
    let mut recipe: Vec<RecipeEntry> = Vec::new();
    recipe.push(
        RecipeEntry {
            ingredient_id: "gin".to_owned(),
            amount: "6 cl".to_owned(),
        },
    );
    recipe.push(
        RecipeEntry {
            ingredient_id: "peachBitters".to_owned(),
            amount: "2 cl".to_owned(),
        },
    );
    recipe.push(
        RecipeEntry {
            ingredient_id: "mintLeaves".to_owned(),
            amount: "2 cl".to_owned(),
        },
    );
    Drink {
        id: "derby".to_owned(),
        display_name: "Derby".to_owned(),
        required,
        recipe,
    }
}

/// Build the drink record of Martini.
fn drink_martini() -> (d: Drink)
    ensures
        d.id@ == "martini"@,
        d.display_name@ == "Martini"@,
        d.required@.len() == 2,
        d.required@[0]@ == "gin"@,
        d.required@[1]@ == "dryVermouth"@,
        d.recipe@.len() == 2,
        d.recipe@[0].ingredient_id@ == "gin"@,
        d.recipe@[0].amount@ == "6 cl"@,
        d.recipe@[1].ingredient_id@ == "dryVermouth"@,
        d.recipe@[1].amount@ == "1 cl"@,
{
    let mut required: Vec<String> = Vec::new();
    required.push("gin".to_owned());
    required.push("dryVermouth".to_owned());
    let mut recipe: Vec<RecipeEntry> = Vec::new();
    recipe.push(
        RecipeEntry {
            ingredient_id: "gin".to_owned(),
            amount: "6 cl".to_owned(),
        },
    );
    recipe.push(
        RecipeEntry {
            ingredient_id: "dryVermouth".to_owned(),
            amount: "1 cl".to_owned(),
        },
    );
    Drink {
        id: "martini".to_owned(),
        display_name: "Martini".to_owned(),
        required,
        recipe,
    }
}

/// Build the drink record of Gin Fizz.
fn drink_gin_fizz() -> (d: Drink)
    ensures
        d.id@ == "ginFizz"@,
        d.display_name@ == "Gin Fizz"@,
        d.required@.len() == 4,
        d.required@[0]@ == "gin"@,
        d.required@[1]@ == "lemonJuice"@,
        d.required@[2]@ == "gommeSyrup"@,
        d.required@[3]@ == "sodaWater"@,
        d.recipe@.len() == 4,
        d.recipe@[0].ingredient_id@ == "gin"@,
        d.recipe@[0].amount@ == "4.5 cl"@,
        d.recipe@[1].ingredient_id@ == "lemonJuice"@,
        d.recipe@[1].amount@ == "3 cl"@,
        d.recipe@[2].ingredient_id@ == "gommeSyrup"@,
        d.recipe@[2].amount@ == "1 cl"@,
        d.recipe@[3].ingredient_id@ == "sodaWater"@,
        d.recipe@[3].amount@ == "8 cl"@,
{
    let mut required: Vec<String> = Vec::new();
    required.push("gin".to_owned());
    required.push("lemonJuice".to_owned());
    required.push("gommeSyrup".to_owned());
    required.push("sodaWater".to_owned());
    let mut recipe: Vec<RecipeEntry> = Vec::new();
    recipe.push(
        RecipeEntry {
            ingredient_id: "gin".to_owned(),
            amount: "4.5 cl".to_owned(),
        },
    );
    recipe.push(
        RecipeEntry {
            ingredient_id: "lemonJuice".to_owned(),
            amount: "3 cl".to_owned(),
        },
    );
    recipe.push(
        RecipeEntry {
            ingredient_id: "gommeSyrup".to_owned(),
            amount: "1 cl".to_owned(),
        },
    );
    recipe.push(
        RecipeEntry {
            ingredient_id: "sodaWater".to_owned(),
            amount: "8 cl".to_owned(),
        },
    );
    Drink {
        id: "ginFizz".to_owned(),
        display_name: "Gin Fizz".to_owned(),
        required,
        recipe,
    }
}

/// Build the drink record of John Collins.
fn drink_john_collins() -> (d: Drink)
    ensures
        d.id@ == "johnCollins"@,
        d.display_name@ == "John Collins"@,
        d.required@.len() == 4,
        d.required@[0]@ == "gin"@,
        d.required@[1]@ == "lemonJuice"@,
        d.required@[2]@ == "simpleSyrup"@,
        d.required@[3]@ == "sodaWater"@,
        d.recipe@.len() == 4,
        d.recipe@[0].ingredient_id@ == "gin"@,
        d.recipe@[0].amount@ == "4.5 cl"@,
        d.recipe@[1].ingredient_id@ == "lemonJuice"@,
        d.recipe@[1].amount@ == "3 cl"@,
        d.recipe@[2].ingredient_id@ == "simpleSyrup"@,
        d.recipe@[2].amount@ == "1.5 cl"@,
        d.recipe@[3].ingredient_id@ == "sodaWater"@,
        d.recipe@[3].amount@ == "6 cl"@,
{
    let mut required: Vec<String> = Vec::new();
    required.push("gin".to_owned());
    required.push("lemonJuice".to_owned());
    required.push("simpleSyrup".to_owned());
    required.push("sodaWater".to_owned());
    let mut recipe: Vec<RecipeEntry> = Vec::new();
    recipe.push(
        RecipeEntry {
            ingredient_id: "gin".to_owned(),
            amount: "4.5 cl".to_owned(),
        },
    );
    recipe.push(
        RecipeEntry {
            ingredient_id: "lemonJuice".to_owned(),
            amount: "3 cl".to_owned(),
        },
    );
    recipe.push(
        RecipeEntry {
            ingredient_id: "simpleSyrup".to_owned(),
            amount: "1.5 cl".to_owned(),
        },
    );
    recipe.push(
        RecipeEntry {
            ingredient_id: "sodaWater".to_owned(),
            amount: "6 cl".to_owned(),
        },
    );
    Drink {
        id: "johnCollins".to_owned(),
        display_name: "John Collins".to_owned(),
        required,
        recipe,
    }
}

/// Build the drink record of Manhattan.
fn drink_manhattan() -> (d: Drink)
    ensures
        d.id@ == "manhattan"@,
        d.display_name@ == "Manhattan"@,
        d.required@.len() == 3,
        d.required@[0]@ == "rye"@,
        d.required@[1]@ == "sweetVermouth"@,
        d.required@[2]@ == "angosturaBitters"@,
        d.recipe@.len() == 3,
        d.recipe@[0].ingredient_id@ == "rye"@,
        d.recipe@[0].amount@ == "5 cl"@,
        d.recipe@[1].ingredient_id@ == "sweetVermouth"@,
        d.recipe@[1].amount@ == "2 cl"@,
        d.recipe@[2].ingredient_id@ == "angosturaBitters"@,
        d.recipe@[2].amount@ == "1 dash"@,
{
    let mut required: Vec<String> = Vec::new();
    required.push("rye".to_owned());
    required.push("sweetVermouth".to_owned());
    required.push("angosturaBitters".to_owned());
    let mut recipe: Vec<RecipeEntry> = Vec::new();
    recipe.push(
        RecipeEntry {
            ingredient_id: "rye".to_owned(),
            amount: "5 cl".to_owned(),
        },
    );
    recipe.push(
        RecipeEntry {
            ingredient_id: "sweetVermouth".to_owned(),
            amount: "2 cl".to_owned(),
        },
    );
    recipe.push(
        RecipeEntry {
            ingredient_id: "angosturaBitters".to_owned(),
            amount: "1 dash".to_owned(),
        },
    );
    Drink {
        id: "manhattan".to_owned(),
        display_name: "Manhattan".to_owned(),
        required,
        recipe,
    }
}

/// Build the drink record of Mary Pickford.
fn drink_mary_pickford() -> (d: Drink)
    ensures
        d.id@ == "maryPickford"@,
        d.display_name@ == "Mary Pickford"@,
        d.required@.len() == 4,
        d.required@[0]@ == "whiteRum"@,
        d.required@[1]@ == "pineappleJuice"@,
        d.required@[2]@ == "grenadine"@,
        d.required@[3]@ == "maraschino"@,
        d.recipe@.len() == 4,
        d.recipe@[0].ingredient_id@ == "whiteRum"@,
        d.recipe@[0].amount@ == "6 cl"@,
        d.recipe@[1].ingredient_id@ == "pineappleJuice"@,
        d.recipe@[1].amount@ == "6 cl"@,
        d.recipe@[2].ingredient_id@ == "grenadine"@,
        d.recipe@[2].amount@ == "1 cl"@,
        d.recipe@[3].ingredient_id@ == "maraschino"@,
        d.recipe@[3].amount@ == "1 cl"@,
{
    let mut required: Vec<String> = Vec::new();
    required.push("whiteRum".to_owned());
    required.push("pineappleJuice".to_owned());
    required.push("grenadine".to_owned());
    required.push("maraschino".to_owned());
    let mut recipe: Vec<RecipeEntry> = Vec::new();
    recipe.push(
        RecipeEntry {
            ingredient_id: "whiteRum".to_owned(),
            amount: "6 cl".to_owned(),
        },
    );
    recipe.push(
        RecipeEntry {
            ingredient_id: "pineappleJuice".to_owned(),
            amount: "6 cl".to_owned(),
        },
    );
    recipe.push(
        RecipeEntry {
            ingredient_id: "grenadine".to_owned(),
            amount: "1 cl".to_owned(),
        },
    );
    recipe.push(
        RecipeEntry {
            ingredient_id: "maraschino".to_owned(),
            amount: "1 cl".to_owned(),
        },
    );
    Drink {
        id: "maryPickford".to_owned(),
        display_name: "Mary Pickford".to_owned(),
        required,
        recipe,
    }
}

/// Build the drink record of Monkey Gland.
fn drink_monkey_gland() -> (d: Drink)
    ensures
        d.id@ == "monkeyGland"@,
        d.display_name@ == "Monkey Gland"@,
        d.required@.len() == 4,
        d.required@[0]@ == "gin"@,
        d.required@[1]@ == "orangeJuice"@,
        d.required@[2]@ == "absinthe"@,
        d.required@[3]@ == "grenadine"@,
        d.recipe@.len() == 4,
        d.recipe@[0].ingredient_id@ == "gin"@,
        d.recipe@[0].amount@ == "5 cl"@,
        d.recipe@[1].ingredient_id@ == "orangeJuice"@,
        d.recipe@[1].amount@ == "3 cl"@,
        d.recipe@[2].ingredient_id@ == "absinthe"@,
        d.recipe@[2].amount@ == "2 cl"@,
        d.recipe@[3].ingredient_id@ == "grenadine"@,
        d.recipe@[3].amount@ == "2 cl"@,
{
    let mut required: Vec<String> = Vec::new();
    required.push("gin".to_owned());
    required.push("orangeJuice".to_owned());
    required.push("absinthe".to_owned());
    required.push("grenadine".to_owned());
    let mut recipe: Vec<RecipeEntry> = Vec::new();
    recipe.push(
        RecipeEntry {
            ingredient_id: "gin".to_owned(),
            amount: "5 cl".to_owned(),
        },
    );
    recipe.push(
        RecipeEntry {
            ingredient_id: "orangeJuice".to_owned(),
            amount: "3 cl".to_owned(),
        },
    );
    recipe.push(
        RecipeEntry {
            ingredient_id: "absinthe".to_owned(),
            amount: "2 cl".to_owned(),
        },
    );
    recipe.push(
        RecipeEntry {
            ingredient_id: "grenadine".to_owned(),
            amount: "2 cl".to_owned(),
        },
    );
    Drink {
        id: "monkeyGland".to_owned(),
        display_name: "Monkey Gland".to_owned(),
        required,
        recipe,
    }
}

/// Build the drink record of Negroni.
fn drink_negroni() -> (d: Drink)
    ensures
        d.id@ == "negroni"@,
        d.display_name@ == "Negroni"@,
        d.required@.len() == 3,
        d.required@[0]@ == "gin"@,
        d.required@[1]@ == "sweetVermouth"@,
        d.required@[2]@ == "campari"@,
        d.recipe@.len() == 3,
        d.recipe@[0].ingredient_id@ == "gin"@,
        d.recipe@[0].amount@ == "3 cl"@,
        d.recipe@[1].ingredient_id@ == "sweetVermouth"@,
        d.recipe@[1].amount@ == "3 cl"@,
        d.recipe@[2].ingredient_id@ == "campari"@,
        d.recipe@[2].amount@ == "3 cl"@,
{
    let mut required: Vec<String> = Vec::new();
    required.push("gin".to_owned());
    required.push("sweetVermouth".to_owned());
    required.push("campari".to_owned());
    let mut recipe: Vec<RecipeEntry> = Vec::new();
    recipe.push(
        RecipeEntry {
            ingredient_id: "gin".to_owned(),
            amount: "3 cl".to_owned(),
        },
    );
    recipe.push(
        RecipeEntry {
            ingredient_id: "sweetVermouth".to_owned(),
            amount: "3 cl".to_owned(),
        },
    );
    recipe.push(
        RecipeEntry {
            ingredient_id: "campari".to_owned(),
            amount: "3 cl".to_owned(),
        },
    );
    Drink {
        id: "negroni".to_owned(),
        display_name: "Negroni".to_owned(),
        required,
        recipe,
    }
}

/// Build the drink record of Old Fashioned.
fn drink_old_fashioned() -> (d: Drink)
    ensures
        d.id@ == "oldFashioned"@,
        d.display_name@ == "Old Fashioned"@,
        d.required@.len() == 4,
        d.required@[0]@ == "bourbon"@,
        d.required@[1]@ == "angosturaBitters"@,
        d.required@[2]@ == "sugarCube"@,
        d.required@[3]@ == "water"@,
        d.recipe@.len() == 4,
        d.recipe@[0].ingredient_id@ == "bourbon"@,
        d.recipe@[0].amount@ == "4.5 cl"@,
        d.recipe@[1].ingredient_id@ == "angosturaBitters"@,
        d.recipe@[1].amount@ == "2 dashes"@,
        d.recipe@[2].ingredient_id@ == "sugarCube"@,
        d.recipe@[2].amount@ == "1"@,
        d.recipe@[3].ingredient_id@ == "water"@,
        d.recipe@[3].amount@ == "few dashes"@,
{
    let mut required: Vec<String> = Vec::new();
    required.push("bourbon".to_owned());
    required.push("angosturaBitters".to_owned());
    required.push("sugarCube".to_owned());
    required.push("water".to_owned());
    let mut recipe: Vec<RecipeEntry> = Vec::new();
    recipe.push(
        RecipeEntry {
            ingredient_id: "bourbon".to_owned(),
            amount: "4.5 cl".to_owned(),
        },
    );
    recipe.push(
        RecipeEntry {
            ingredient_id: "angosturaBitters".to_owned(),
            amount: "2 dashes".to_owned(),
        },
    );
    recipe.push(
        RecipeEntry {
            ingredient_id: "sugarCube".to_owned(),
            amount: "1".to_owned(),
        },
    );
    recipe.push(
        RecipeEntry {
            ingredient_id: "water".to_owned(),
            amount: "few dashes".to_owned(),
        },
    );
    Drink {
        id: "oldFashioned".to_owned(),
        display_name: "Old Fashioned".to_owned(),
        required,
        recipe,
    }
}

/// Build the drink record of Paradise.
fn drink_paradise() -> (d: Drink)
    ensures
        d.id@ == "paradise"@,
        d.display_name@ == "Paradise"@,
        d.required@.len() == 3,
        d.required@[0]@ == "gin"@,
        d.required@[1]@ == "apricotBrandy"@,
        d.required@[2]@ == "orangeJuice"@,
        d.recipe@.len() == 3,
        d.recipe@[0].ingredient_id@ == "gin"@,
        d.recipe@[0].amount@ == "3.5 cl"@,
        d.recipe@[1].ingredient_id@ == "apricotBrandy"@,
        d.recipe@[1].amount@ == "2 cl"@,
        d.recipe@[2].ingredient_id@ == "orangeJuice"@,
        d.recipe@[2].amount@ == "1.5 cl"@,
{
    let mut required: Vec<String> = Vec::new();
    required.push("gin".to_owned());
    required.push("apricotBrandy".to_owned());
    required.push("orangeJuice".to_owned());
    let mut recipe: Vec<RecipeEntry> = Vec::new();
    recipe.push(
        RecipeEntry {
            ingredient_id: "gin".to_owned(),
            amount: "3.5 cl".to_owned(),
        },
    );
    recipe.push(
        RecipeEntry {
            ingredient_id: "apricotBrandy".to_owned(),
            amount: "2 cl".to_owned(),
        },
    );
    recipe.push(
        RecipeEntry {
            ingredient_id: "orangeJuice".to_owned(),
            amount: "1.5 cl".to_owned(),
        },
    );
    Drink {
        id: "paradise".to_owned(),
        display_name: "Paradise".to_owned(),
        required,
        recipe,
    }
}

/// Build the drink record of Planter's Punch.
fn drink_planters_punch() -> (d: Drink)
    ensures
        d.id@ == "plantersPunch"@,
        d.display_name@ == "Planter's Punch"@,
        d.required@.len() == 7,
        d.required@[0]@ == "rum"@,
        d.required@[1]@ == "orangeJuice"@,
        d.required@[2]@ == "pineappleJuice"@,
        d.required@[3]@ == "lemonJuice"@,
        d.required@[4]@ == "grenadine"@,
        d.required@[5]@ == "simpleSyrup"@,
        d.required@[6]@ == "angosturaBitters"@,
        d.recipe@.len() == 7,
        d.recipe@[0].ingredient_id@ == "rum"@,
        d.recipe@[0].amount@ == "4.5 cl"@,
        d.recipe@[1].ingredient_id@ == "orangeJuice"@,
        d.recipe@[1].amount@ == "3.5 cl"@,
        d.recipe@[2].ingredient_id@ == "pineappleJuice"@,
        d.recipe@[2].amount@ == "3.5 cl"@,
        d.recipe@[3].ingredient_id@ == "lemonJuice"@,
        d.recipe@[3].amount@ == "2 cl"@,
        d.recipe@[4].ingredient_id@ == "grenadine"@,
        d.recipe@[4].amount@ == "1 cl"@,
        d.recipe@[5].ingredient_id@ == "simpleSyrup"@,
        d.recipe@[5].amount@ == "1 cl"@,
        d.recipe@[6].ingredient_id@ == "angosturaBitters"@,
        d.recipe@[6].amount@ == "few dashes"@,
{
    let mut required: Vec<String> = Vec::new();
    required.push("rum".to_owned());
    required.push("orangeJuice".to_owned());
    required.push("pineappleJuice".to_owned());
    required.push("lemonJuice".to_owned());
    required.push("grenadine".to_owned());
    required.push("simpleSyrup".to_owned());
    required.push("angosturaBitters".to_owned());
    let mut recipe: Vec<RecipeEntry> = Vec::new();
    recipe.push(
        RecipeEntry {
            ingredient_id: "rum".to_owned(),
            amount: "4.5 cl".to_owned(),
        },
    );
    recipe.push(
        RecipeEntry {
            ingredient_id: "orangeJuice".to_owned(),
            amount: "3.5 cl".to_owned(),
        },
    );
    recipe.push(
        RecipeEntry {
            ingredient_id: "pineappleJuice".to_owned(),
            amount: "3.5 cl".to_owned(),
        },
    );
    recipe.push(
        RecipeEntry {
            ingredient_id: "lemonJuice".to_owned(),
            amount: "2 cl".to_owned(),
        },
    );
    recipe.push(
        RecipeEntry {
            ingredient_id: "grenadine".to_owned(),
            amount: "1 cl".to_owned(),
        },
    );
    recipe.push(
        RecipeEntry {
            ingredient_id: "simpleSyrup".to_owned(),
            amount: "1 cl".to_owned(),
        },
    );
    recipe.push(
        RecipeEntry {
            ingredient_id: "angosturaBitters".to_owned(),
            amount: "few dashes".to_owned(),
        },
    );
    Drink {
        id: "plantersPunch".to_owned(),
        display_name: "Planter's Punch".to_owned(),
        required,
        recipe,
    }
}

/// Build the drink record of Porto Flip.
fn drink_porto_flip() -> (d: Drink)
    ensures
        d.id@ == "portoFlip"@,
        d.display_name@ == "Porto Flip"@,
        d.required@.len() == 3,
        d.required@[0]@ == "brandy"@,
        d.required@[1]@ == "port"@,
        d.required@[2]@ == "eggYolk"@,
        d.recipe@.len() == 3,
        d.recipe@[0].ingredient_id@ == "brandy"@,
        d.recipe@[0].amount@ == "1.5 cl"@,
        d.recipe@[1].ingredient_id@ == "port"@,
        d.recipe@[1].amount@ == "4.5 cl"@,
        d.recipe@[2].ingredient_id@ == "eggYolk"@,
        d.recipe@[2].amount@ == "1 cl"@,
{
    let mut required: Vec<String> = Vec::new();
    required.push("brandy".to_owned());
    required.push("port".to_owned());
    required.push("eggYolk".to_owned());
    let mut recipe: Vec<RecipeEntry> = Vec::new();
    recipe.push(
        RecipeEntry {
            ingredient_id: "brandy".to_owned(),
            amount: "1.5 cl".to_owned(),
        },
    );
    recipe.push(
        RecipeEntry {
            ingredient_id: "port".to_owned(),
            amount: "4.5 cl".to_owned(),
        },
    );
    recipe.push(
        RecipeEntry {
            ingredient_id: "eggYolk".to_owned(),
            amount: "1 cl".to_owned(),
        },
    );
    Drink {
        id: "portoFlip".to_owned(),
        display_name: "Porto Flip".to_owned(),
        required,
        recipe,
    }
}

/// Build the drink record of Ramos Gin Fizz.
fn drink_ramos_gin_fizz() -> (d: Drink)
    ensures
        d.id@ == "ramosGinFizz"@,
        d.display_name@ == "Ramos Gin Fizz"@,
        d.required@.len() == 9,
        d.required@[0]@ == "gin"@,
        d.required@[1]@ == "limeJuice"@,
        d.required@[2]@ == "lemonJuice"@,
        d.required@[3]@ == "simpleSyrup"@,
        d.required@[4]@ == "cream"@,
        d.required@[5]@ == "eggWhite"@,
        d.required@[6]@ == "orangeFlowerWater"@,
        d.required@[7]@ == "vanillaExtract"@,
        d.required@[8]@ == "sodaWater"@,
        d.recipe@.len() == 9,
        d.recipe@[0].ingredient_id@ == "gin"@,
        d.recipe@[0].amount@ == "4.5 cl"@,
        d.recipe@[1].ingredient_id@ == "limeJuice"@,
        d.recipe@[1].amount@ == "1.5 cl"@,
        d.recipe@[2].ingredient_id@ == "lemonJuice"@,
        d.recipe@[2].amount@ == "1.5 cl"@,
        d.recipe@[3].ingredient_id@ == "simpleSyrup"@,
        d.recipe@[3].amount@ == "3 cl"@,
        d.recipe@[4].ingredient_id@ == "cream"@,
        d.recipe@[4].amount@ == "6 cl"@,
        d.recipe@[5].ingredient_id@ == "eggWhite"@,
        d.recipe@[5].amount@ == "1"@,
        d.recipe@[6].ingredient_id@ == "orangeFlowerWater"@,
        d.recipe@[6].amount@ == "3 dashes"@,
        d.recipe@[7].ingredient_id@ == "vanillaExtract"@,
        d.recipe@[7].amount@ == "2 drops"@,
        d.recipe@[8].ingredient_id@ == "sodaWater"@,
        d.recipe@[8].amount@ == "top"@,
{
    let mut required: Vec<String> = Vec::new();
    required.push("gin".to_owned());
    required.push("limeJuice".to_owned());
    required.push("lemonJuice".to_owned());
    required.push("simpleSyrup".to_owned());
    required.push("cream".to_owned());
    required.push("eggWhite".to_owned());
    required.push("orangeFlowerWater".to_owned());
    required.push("vanillaExtract".to_owned());
    required.push("sodaWater".to_owned());
    let mut recipe: Vec<RecipeEntry> = Vec::new();
    recipe.push(
        RecipeEntry {
            ingredient_id: "gin".to_owned(),
            amount: "4.5 cl".to_owned(),
        },
    );
    recipe.push(
        RecipeEntry {
            ingredient_id: "limeJuice".to_owned(),
            amount: "1.5 cl".to_owned(),
        },
    );
    recipe.push(
        RecipeEntry {
            ingredient_id: "lemonJuice".to_owned(),
            amount: "1.5 cl".to_owned(),
        },
    );
    recipe.push(
        RecipeEntry {
            ingredient_id: "simpleSyrup".to_owned(),
            amount: "3 cl".to_owned(),
        },
    );
    recipe.push(
        RecipeEntry {
            ingredient_id: "cream".to_owned(),
            amount: "6 cl".to_owned(),
        },
    );
    recipe.push(
        RecipeEntry {
            ingredient_id: "eggWhite".to_owned(),
            amount: "1".to_owned(),
        },
    );
    recipe.push(
        RecipeEntry {
            ingredient_id: "orangeFlowerWater".to_owned(),
            amount: "3 dashes".to_owned(),
        },
    );
    recipe.push(
        RecipeEntry {
            ingredient_id: "vanillaExtract".to_owned(),
            amount: "2 drops".to_owned(),
        },
    );
    recipe.push(
        RecipeEntry {
            ingredient_id: "sodaWater".to_owned(),
            amount: "top".to_owned(),
        },
    );
    Drink {
        id: "ramosGinFizz".to_owned(),
        display_name: "Ramos Gin Fizz".to_owned(),
        required,
        recipe,
    }
}

/// Build the drink record of Rusty Nail.
fn drink_rusty_nail() -> (d: Drink)
    ensures
        d.id@ == "rustyNail"@,
        d.display_name@ == "Rusty Nail"@,
        d.required@.len() == 2,
        d.required@[0]@ == "scotch"@,
        d.required@[1]@ == "drambuie"@,
        d.recipe@.len() == 2,
        d.recipe@[0].ingredient_id@ == "scotch"@,
        d.recipe@[0].amount@ == "4.5 cl"@,
        d.recipe@[1].ingredient_id@ == "drambuie"@,
        d.recipe@[1].amount@ == "2.5 cl"@,
{
    let mut required: Vec<String> = Vec::new();
    required.push("scotch".to_owned());
    required.push("drambuie".to_owned());
    let mut recipe: Vec<RecipeEntry> = Vec::new();
    recipe.push(
        RecipeEntry {
            ingredient_id: "scotch".to_owned(),
            amount: "4.5 cl".to_owned(),
        },
    );
    recipe.push(
        RecipeEntry {
            ingredient_id: "drambuie".to_owned(),
            amount: "2.5 cl".to_owned(),
        },
    );
    Drink {
        id: "rustyNail".to_owned(),
        display_name: "Rusty Nail".to_owned(),
        required,
        recipe,
    }
}

/// Build the drink record of Sazerac.
fn drink_sazerac() -> (d: Drink)
    ensures
        d.id@ == "sazerac"@,
        d.display_name@ == "Sazerac"@,
        d.required@.len() == 4,
        d.required@[0]@ == "cognac"@,
        d.required@[1]@ == "absinthe"@,
        d.required@[2]@ == "sugarCube"@,
        d.required@[3]@ == "peychaudsBitters"@,
        d.recipe@.len() == 4,
        d.recipe@[0].ingredient_id@ == "cognac"@,
        d.recipe@[0].amount@ == "5 cl"@,
        d.recipe@[1].ingredient_id@ == "absinthe"@,
        d.recipe@[1].amount@ == "1 cl"@,
        d.recipe@[2].ingredient_id@ == "sugarCube"@,
        d.recipe@[2].amount@ == "1"@,
        d.recipe@[3].ingredient_id@ == "peychaudsBitters"@,
        d.recipe@[3].amount@ == "2 dashes"@,
{
    let mut required: Vec<String> = Vec::new();
    required.push("cognac".to_owned());
    required.push("absinthe".to_owned());
    required.push("sugarCube".to_owned());
    required.push("peychaudsBitters".to_owned());
    let mut recipe: Vec<RecipeEntry> = Vec::new();
    recipe.push(
        RecipeEntry {
            ingredient_id: "cognac".to_owned(),
            amount: "5 cl".to_owned(),
        },
    );
    recipe.push(
        RecipeEntry {
            ingredient_id: "absinthe".to_owned(),
            amount: "1 cl".to_owned(),
        },
    );
    recipe.push(
        RecipeEntry {
            ingredient_id: "sugarCube".to_owned(),
            amount: "1".to_owned(),
        },
    );
    recipe.push(
        RecipeEntry {
            ingredient_id: "peychaudsBitters".to_owned(),
            amount: "2 dashes".to_owned(),
        },
    );
    Drink {
        id: "sazerac".to_owned(),
        display_name: "Sazerac".to_owned(),
        required,
        recipe,
    }
}

/// Build the drink record of Screwdriver.
fn drink_screwdriver() -> (d: Drink)
    ensures
        d.id@ == "screwdriver"@,
        d.display_name@ == "Screwdriver"@,
        d.required@.len() == 2,
        d.required@[0]@ == "vodka"@,
        d.required@[1]@ == "orangeJuice"@,
        d.recipe@.len() == 2,
        d.recipe@[0].ingredient_id@ == "vodka"@,
        d.recipe@[0].amount@ == "5 cl"@,
        d.recipe@[1].ingredient_id@ == "orangeJuice"@,
        d.recipe@[1].amount@ == "10 cl"@,
{
    let mut required: Vec<String> = Vec::new();
    required.push("vodka".to_owned());
    required.push("orangeJuice".to_owned());
    let mut recipe: Vec<RecipeEntry> = Vec::new();
    recipe.push(
        RecipeEntry {
            ingredient_id: "vodka".to_owned(),
            amount: "5 cl".to_owned(),
        },
    );
    recipe.push(
        RecipeEntry {
            ingredient_id: "orangeJuice".to_owned(),
            amount: "10 cl".to_owned(),
        },
    );
    Drink {
        id: "screwdriver".to_owned(),
        display_name: "Screwdriver".to_owned(),
        required,
        recipe,
    }
}

/// Build the drink record of Sidecar.
fn drink_sidecar() -> (d: Drink)
    ensures
        d.id@ == "sidecar"@,
        d.display_name@ == "Sidecar"@,
        d.required@.len() == 3,
        d.required@[0]@ == "cognac"@,
        d.required@[1]@ == "tripleSec"@,
        d.required@[2]@ == "lemonJuice"@,
        d.recipe@.len() == 3,
        d.recipe@[0].ingredient_id@ == "cognac"@,
        d.recipe@[0].amount@ == "5 cl"@,
        d.recipe@[1].ingredient_id@ == "tripleSec"@,
        d.recipe@[1].amount@ == "2 cl"@,
        d.recipe@[2].ingredient_id@ == "lemonJuice"@,
        d.recipe@[2].amount@ == "2 cl"@,
{
    let mut required: Vec<String> = Vec::new();
    required.push("cognac".to_owned());
    required.push("tripleSec".to_owned());
    required.push("lemonJuice".to_owned());
    let mut recipe: Vec<RecipeEntry> = Vec::new();
    recipe.push(
        RecipeEntry {
            ingredient_id: "cognac".to_owned(),
            amount: "5 cl".to_owned(),
        },
    );
    recipe.push(
        RecipeEntry {
            ingredient_id: "tripleSec".to_owned(),
            amount: "2 cl".to_owned(),
        },
    );
    recipe.push(
        RecipeEntry {
            ingredient_id: "lemonJuice".to_owned(),
            amount: "2 cl".to_owned(),
        },
    );
    Drink {
        id: "sidecar".to_owned(),
        display_name: "Sidecar".to_owned(),
        required,
        recipe,
    }
}

/// Build the drink record of Stinger.
fn drink_stinger() -> (d: Drink)
    ensures
        d.id@ == "stinger"@,
        d.display_name@ == "Stinger"@,
        d.required@.len() == 2,
        d.required@[0]@ == "cognac"@,
        d.required@[1]@ == "cremeDeMenthe"@,
        d.recipe@.len() == 2,
        d.recipe@[0].ingredient_id@ == "cognac"@,
        d.recipe@[0].amount@ == "5 cl"@,
        d.recipe@[1].ingredient_id@ == "cremeDeMenthe"@,
        d.recipe@[1].amount@ == "2 cl"@,
{
    let mut required: Vec<String> = Vec::new();
    required.push("cognac".to_owned());
    required.push("cremeDeMenthe".to_owned());
    let mut recipe: Vec<RecipeEntry> = Vec::new();
    recipe.push(
        RecipeEntry {
            ingredient_id: "cognac".to_owned(),
            amount: "5 cl".to_owned(),
        },
    );
    recipe.push(
        RecipeEntry {
            ingredient_id: "cremeDeMenthe".to_owned(),
            amount: "2 cl".to_owned(),
        },
    );
    Drink {
        id: "stinger".to_owned(),
        display_name: "Stinger".to_owned(),
        required,
        recipe,
    }
}

/// Build the drink record of Tuxedo.
fn drink_tuxedo() -> (d: Drink)
    ensures
        d.id@ == "tuxedo"@,
        d.display_name@ == "Tuxedo"@,
        d.required@.len() == 5,
        d.required@[0]@ == "gin"@,
        d.required@[1]@ == "dryVermouth"@,
        d.required@[2]@ == "maraschino"@,
        d.required@[3]@ == "absinthe"@,
        d.required@[4]@ == "orangeBitters"@,
        d.recipe@.len() == 5,
        d.recipe@[0].ingredient_id@ == "gin"@,
        d.recipe@[0].amount@ == "3 cl"@,
        d.recipe@[1].ingredient_id@ == "dryVermouth"@,
        d.recipe@[1].amount@ == "3 cl"@,
        d.recipe@[2].ingredient_id@ == "maraschino"@,
        d.recipe@[2].amount@ == "0.5 barspoon"@,
        d.recipe@[3].ingredient_id@ == "absinthe"@,
        d.recipe@[3].amount@ == "0.25 barspoon"@,
        d.recipe@[4].ingredient_id@ == "orangeBitters"@,
        d.recipe@[4].amount@ == "3 dashes"@,
{
    let mut required: Vec<String> = Vec::new();
    required.push("gin".to_owned());
    required.push("dryVermouth".to_owned());
    required.push("maraschino".to_owned());
    required.push("absinthe".to_owned());
    required.push("orangeBitters".to_owned());
    let mut recipe: Vec<RecipeEntry> = Vec::new();
    recipe.push(
        RecipeEntry {
            ingredient_id: "gin".to_owned(),
            amount: "3 cl".to_owned(),
        },
    );
    recipe.push(
        RecipeEntry {
            ingredient_id: "dryVermouth".to_owned(),
            amount: "3 cl".to_owned(),
        },
    );
    recipe.push(
        RecipeEntry {
            ingredient_id: "maraschino".to_owned(),
            amount: "0.5 barspoon".to_owned(),
        },
    );
    recipe.push(
        RecipeEntry {
            ingredient_id: "absinthe".to_owned(),
            amount: "0.25 barspoon".to_owned(),
        },
    );
    recipe.push(
        RecipeEntry {
            ingredient_id: "orangeBitters".to_owned(),
            amount: "3 dashes".to_owned(),
        },
    );
    Drink {
        id: "tuxedo".to_owned(),
        display_name: "Tuxedo".to_owned(),
        required,
        recipe,
    }
}

/// Build the drink record of Whiskey Sour.
fn drink_whiskey_sour() -> (d: Drink)
    ensures
        d.id@ == "whiskeySour"@,
        d.display_name@ == "Whiskey Sour"@,
        d.required@.len() == 4,
        d.required@[0]@ == "bourbon"@,
        d.required@[1]@ == "lemonJuice"@,
        d.required@[2]@ == "gommeSyrup"@,
        d.required@[3]@ == "eggWhite"@,
        d.recipe@.len() == 4,
        d.recipe@[0].ingredient_id@ == "bourbon"@,
        d.recipe@[0].amount@ == "4.5 cl"@,
        d.recipe@[1].ingredient_id@ == "lemonJuice"@,
        d.recipe@[1].amount@ == "3 cl"@,
        d.recipe@[2].ingredient_id@ == "gommeSyrup"@,
        d.recipe@[2].amount@ == "1.5 cl"@,
        d.recipe@[3].ingredient_id@ == "eggWhite"@,
        d.recipe@[3].amount@ == "1 dash"@,
{
    let mut required: Vec<String> = Vec::new();
    required.push("bourbon".to_owned());
    required.push("lemonJuice".to_owned());
    required.push("gommeSyrup".to_owned());
    required.push("eggWhite".to_owned());
    let mut recipe: Vec<RecipeEntry> = Vec::new();
    recipe.push(
        RecipeEntry {
            ingredient_id: "bourbon".to_owned(),
            amount: "4.5 cl".to_owned(),
        },
    );
    recipe.push(
        RecipeEntry {
            ingredient_id: "lemonJuice".to_owned(),
            amount: "3 cl".to_owned(),
        },
    );
    recipe.push(
        RecipeEntry {
            ingredient_id: "gommeSyrup".to_owned(),
            amount: "1.5 cl".to_owned(),
        },
    );
    recipe.push(
        RecipeEntry {
            ingredient_id: "eggWhite".to_owned(),
            amount: "1 dash".to_owned(),
        },
    );
    Drink {
        id: "whiskeySour".to_owned(),
        display_name: "Whiskey Sour".to_owned(),
        required,
        recipe,
    }
}

/// Build the drink record of White Lady.
fn drink_white_lady() -> (d: Drink)
    ensures
        d.id@ == "whiteLady"@,
        d.display_name@ == "White Lady"@,
        d.required@.len() == 3,
        d.required@[0]@ == "gin"@,
        d.required@[1]@ == "tripleSec"@,
        d.required@[2]@ == "lemonJuice"@,
        d.recipe@.len() == 3,
        d.recipe@[0].ingredient_id@ == "gin"@,
        d.recipe@[0].amount@ == "4 cl"@,
        d.recipe@[1].ingredient_id@ == "tripleSec"@,
        d.recipe@[1].amount@ == "3 cl"@,
        d.recipe@[2].ingredient_id@ == "lemonJuice"@,
        d.recipe@[2].amount@ == "2 cl"@,
{
    let mut required: Vec<String> = Vec::new();
    required.push("gin".to_owned());
    required.push("tripleSec".to_owned());
    required.push("lemonJuice".to_owned());
    let mut recipe: Vec<RecipeEntry> = Vec::new();
    recipe.push(
        RecipeEntry {
            ingredient_id: "gin".to_owned(),
            amount: "4 cl".to_owned(),
        },
    );
    recipe.push(
        RecipeEntry {
            ingredient_id: "tripleSec".to_owned(),
            amount: "3 cl".to_owned(),
        },
    );
    recipe.push(
        RecipeEntry {
            ingredient_id: "lemonJuice".to_owned(),
            amount: "2 cl".to_owned(),
        },
    );
    Drink {
        id: "whiteLady".to_owned(),
        display_name: "White Lady".to_owned(),
        required,
        recipe,
    }
}

/// Build the fixed drink table, in catalog order.
#[verifier::rlimit(100)]
pub fn build_drinks() -> (r: Vec<Drink>)
    ensures
        builtin_drinks_ok(r@),
{
    let mut drinks: Vec<Drink> = Vec::new();
    drinks.push(drink_alexander());
    drinks.push(drink_americano());
    drinks.push(drink_angel_face());
    drinks.push(drink_aviation());
    drinks.push(drink_bacardi());
    drinks.push(drink_between_the_sheets());
    drinks.push(drink_casino());
    drinks.push(drink_clover_club());
    drinks.push(drink_daiquiri());
    drinks.push(drink_derby());
    drinks.push(drink_martini());
    drinks.push(drink_gin_fizz());
    drinks.push(drink_john_collins());
    drinks.push(drink_manhattan());
    drinks.push(drink_mary_pickford());
    drinks.push(drink_monkey_gland());
    drinks.push(drink_negroni());
    drinks.push(drink_old_fashioned());
    drinks.push(drink_paradise());
    drinks.push(drink_planters_punch());
    drinks.push(drink_porto_flip());
    drinks.push(drink_ramos_gin_fizz());
    drinks.push(drink_rusty_nail());
    drinks.push(drink_sazerac());
    drinks.push(drink_screwdriver());
    drinks.push(drink_sidecar());
    drinks.push(drink_stinger());
    drinks.push(drink_tuxedo());
    drinks.push(drink_whiskey_sour());
    drinks.push(drink_white_lady());
    proof {
        assert forall|k: int| #![trigger drinks@[k]] 0 <= k < 30 implies {
            &&& drinks@[k].id@ == builtin_drink_id(k)
            &&& drinks@[k].display_name@ == builtin_drink_name(k)
            &&& drinks@[k].required@.len() == builtin_required_len(k)
            &&& (forall|j: int|
                0 <= j < builtin_required_len(k) ==> #[trigger] drinks@[k].required@[j]@
                    == builtin_ingredient_id(builtin_required_ing(k, j)))
            &&& drinks@[k].recipe@.len() == builtin_required_len(k)
            &&& (forall|j: int|
                0 <= j < builtin_required_len(k) ==> #[trigger] drinks@[k].recipe@[j].ingredient_id@
                    == builtin_ingredient_id(builtin_required_ing(k, j))
                    && drinks@[k].recipe@[j].amount@ == builtin_amount(k, j))
        } by {
            if k == 0 {
                assert(drinks@[0].id@ == "alexander"@);
                assert(drinks@[0].display_name@ == "Alexander"@);
                assert(drinks@[0].required@.len() == 3);
                assert forall|j: int| 0 <= j < builtin_required_len(0)
                    implies #[trigger] drinks@[0].required@[j]@
                    == builtin_ingredient_id(builtin_required_ing(0, j)) by {
                    assert(drinks@[0].required@[0]@ == "cognac"@);
                    assert(drinks@[0].required@[1]@ == "cremeDeCacao"@);
                    assert(drinks@[0].required@[2]@ == "cream"@);
                }
                assert forall|j: int| 0 <= j < builtin_required_len(0)
                    implies #[trigger] drinks@[0].recipe@[j].ingredient_id@
                    == builtin_ingredient_id(builtin_required_ing(0, j))
                    && drinks@[0].recipe@[j].amount@ == builtin_amount(0, j) by {
                    assert(drinks@[0].recipe@[0].ingredient_id@ == "cognac"@);
                    assert(drinks@[0].recipe@[0].amount@ == "3 cl"@);
                    assert(drinks@[0].recipe@[1].ingredient_id@ == "cremeDeCacao"@);
                    assert(drinks@[0].recipe@[1].amount@ == "3 cl"@);
                    assert(drinks@[0].recipe@[2].ingredient_id@ == "cream"@);
                    assert(drinks@[0].recipe@[2].amount@ == "3 cl"@);
                }
            } else if k == 1 {
                assert(drinks@[1].id@ == "americano"@);
                assert(drinks@[1].display_name@ == "Americano"@);
                assert(drinks@[1].required@.len() == 3);
                assert forall|j: int| 0 <= j < builtin_required_len(1)
                    implies #[trigger] drinks@[1].required@[j]@
                    == builtin_ingredient_id(builtin_required_ing(1, j)) by {
                    assert(drinks@[1].required@[0]@ == "campari"@);
                    assert(drinks@[1].required@[1]@ == "sweetVermouth"@);
                    assert(drinks@[1].required@[2]@ == "sodaWater"@);
                }
                assert forall|j: int| 0 <= j < builtin_required_len(1)
                    implies #[trigger] drinks@[1].recipe@[j].ingredient_id@
                    == builtin_ingredient_id(builtin_required_ing(1, j))
                    && drinks@[1].recipe@[j].amount@ == builtin_amount(1, j) by {
                    assert(drinks@[1].recipe@[0].ingredient_id@ == "campari"@);
                    assert(drinks@[1].recipe@[0].amount@ == "3 cl"@);
                    assert(drinks@[1].recipe@[1].ingredient_id@ == "sweetVermouth"@);
                    assert(drinks@[1].recipe@[1].amount@ == "3 cl"@);
                    assert(drinks@[1].recipe@[2].ingredient_id@ == "sodaWater"@);
                    assert(drinks@[1].recipe@[2].amount@ == "splash"@);
                }
            } else if k == 2 {
                assert(drinks@[2].id@ == "angelFace"@);
                assert(drinks@[2].display_name@ == "Angel Face"@);
                assert(drinks@[2].required@.len() == 3);
                assert forall|j: int| 0 <= j < builtin_required_len(2)
                    implies #[trigger] drinks@[2].required@[j]@
                    == builtin_ingredient_id(builtin_required_ing(2, j)) by {
                    assert(drinks@[2].required@[0]@ == "gin"@);
                    assert(drinks@[2].required@[1]@ == "apricotBrandy"@);
                    assert(drinks@[2].required@[2]@ == "calvados"@);
                }
                assert forall|j: int| 0 <= j < builtin_required_len(2)
                    implies #[trigger] drinks@[2].recipe@[j].ingredient_id@
                    == builtin_ingredient_id(builtin_required_ing(2, j))
                    && drinks@[2].recipe@[j].amount@ == builtin_amount(2, j) by {
                    assert(drinks@[2].recipe@[0].ingredient_id@ == "gin"@);
                    assert(drinks@[2].recipe@[0].amount@ == "3 cl"@);
                    assert(drinks@[2].recipe@[1].ingredient_id@ == "apricotBrandy"@);
                    assert(drinks@[2].recipe@[1].amount@ == "3 cl"@);
                    assert(drinks@[2].recipe@[2].ingredient_id@ == "calvados"@);
                    assert(drinks@[2].recipe@[2].amount@ == "3 cl"@);
                }
            } else if k == 3 {
                assert(drinks@[3].id@ == "aviation"@);
                assert(drinks@[3].display_name@ == "Aviation"@);
                assert(drinks@[3].required@.len() == 3);
                assert forall|j: int| 0 <= j < builtin_required_len(3)
                    implies #[trigger] drinks@[3].required@[j]@
                    == builtin_ingredient_id(builtin_required_ing(3, j)) by {
                    assert(drinks@[3].required@[0]@ == "gin"@);
                    assert(drinks@[3].required@[1]@ == "lemonJuice"@);
                    assert(drinks@[3].required@[2]@ == "maraschino"@);
                }
                assert forall|j: int| 0 <= j < builtin_required_len(3)
                    implies #[trigger] drinks@[3].recipe@[j].ingredient_id@
                    == builtin_ingredient_id(builtin_required_ing(3, j))
                    && drinks@[3].recipe@[j].amount@ == builtin_amount(3, j) by {
                    assert(drinks@[3].recipe@[0].ingredient_id@ == "gin"@);
                    assert(drinks@[3].recipe@[0].amount@ == "4.5 cl"@);
                    assert(drinks@[3].recipe@[1].ingredient_id@ == "lemonJuice"@);
                    assert(drinks@[3].recipe@[1].amount@ == "1.5 cl"@);
                    assert(drinks@[3].recipe@[2].ingredient_id@ == "maraschino"@);
                    assert(drinks@[3].recipe@[2].amount@ == "1.5 cl"@);
                }
            } else if k == 4 {
                assert(drinks@[4].id@ == "bacardi"@);
                assert(drinks@[4].display_name@ == "Bacardi"@);
                assert(drinks@[4].required@.len() == 3);
                assert forall|j: int| 0 <= j < builtin_required_len(4)
                    implies #[trigger] drinks@[4].required@[j]@
                    == builtin_ingredient_id(builtin_required_ing(4, j)) by {
                    assert(drinks@[4].required@[0]@ == "whiteRum"@);
                    assert(drinks@[4].required@[1]@ == "limeJuice"@);
                    assert(drinks@[4].required@[2]@ == "grenadine"@);
                }
                assert forall|j: int| 0 <= j < builtin_required_len(4)
                    implies #[trigger] drinks@[4].recipe@[j].ingredient_id@
                    == builtin_ingredient_id(builtin_required_ing(4, j))
                    && drinks@[4].recipe@[j].amount@ == builtin_amount(4, j) by {
                    assert(drinks@[4].recipe@[0].ingredient_id@ == "whiteRum"@);
                    assert(drinks@[4].recipe@[0].amount@ == "4.5 cl"@);
                    assert(drinks@[4].recipe@[1].ingredient_id@ == "limeJuice"@);
                    assert(drinks@[4].recipe@[1].amount@ == "2 cl"@);
                    assert(drinks@[4].recipe@[2].ingredient_id@ == "grenadine"@);
                    assert(drinks@[4].recipe@[2].amount@ == "1 cl"@);
                }
            } else if k == 5 {
                assert(drinks@[5].id@ == "betweenTheSheets"@);
                assert(drinks@[5].display_name@ == "Between The Sheets"@);
                assert(drinks@[5].required@.len() == 4);
                assert forall|j: int| 0 <= j < builtin_required_len(5)
                    implies #[trigger] drinks@[5].required@[j]@
                    == builtin_ingredient_id(builtin_required_ing(5, j)) by {
                    assert(drinks@[5].required@[0]@ == "whiteRum"@);
                    assert(drinks@[5].required@[1]@ == "cognac"@);
                    assert(drinks@[5].required@[2]@ == "tripleSec"@);
                    assert(drinks@[5].required@[3]@ == "lemonJuice"@);
                }
                assert forall|j: int| 0 <= j < builtin_required_len(5)
                    implies #[trigger] drinks@[5].recipe@[j].ingredient_id@
                    == builtin_ingredient_id(builtin_required_ing(5, j))
                    && drinks@[5].recipe@[j].amount@ == builtin_amount(5, j) by {
                    assert(drinks@[5].recipe@[0].ingredient_id@ == "whiteRum"@);
                    assert(drinks@[5].recipe@[0].amount@ == "3 cl"@);
                    assert(drinks@[5].recipe@[1].ingredient_id@ == "cognac"@);
                    assert(drinks@[5].recipe@[1].amount@ == "3 cl"@);
                    assert(drinks@[5].recipe@[2].ingredient_id@ == "tripleSec"@);
                    assert(drinks@[5].recipe@[2].amount@ == "3 cl"@);
                    assert(drinks@[5].recipe@[3].ingredient_id@ == "lemonJuice"@);
                    assert(drinks@[5].recipe@[3].amount@ == "2 cl"@);
                }
            } else if k == 6 {
                assert(drinks@[6].id@ == "casino"@);
                assert(drinks@[6].display_name@ == "Casino"@);
                assert(drinks@[6].required@.len() == 4);
                assert forall|j: int| 0 <= j < builtin_required_len(6)
                    implies #[trigger] drinks@[6].required@[j]@
                    == builtin_ingredient_id(builtin_required_ing(6, j)) by {
                    assert(drinks@[6].required@[0]@ == "gin"@);
                    assert(drinks@[6].required@[1]@ == "maraschino"@);
                    assert(drinks@[6].required@[2]@ == "orangeBitters"@);
                    assert(drinks@[6].required@[3]@ == "lemonJuice"@);
                }
                assert forall|j: int| 0 <= j < builtin_required_len(6)
                    implies #[trigger] drinks@[6].recipe@[j].ingredient_id@
                    == builtin_ingredient_id(builtin_required_ing(6, j))
                    && drinks@[6].recipe@[j].amount@ == builtin_amount(6, j) by {
                    assert(drinks@[6].recipe@[0].ingredient_id@ == "gin"@);
                    assert(drinks@[6].recipe@[0].amount@ == "4 cl"@);
                    assert(drinks@[6].recipe@[1].ingredient_id@ == "maraschino"@);
                    assert(drinks@[6].recipe@[1].amount@ == "1 cl"@);
                    assert(drinks@[6].recipe@[2].ingredient_id@ == "orangeBitters"@);
                    assert(drinks@[6].recipe@[2].amount@ == "1 cl"@);
                    assert(drinks@[6].recipe@[3].ingredient_id@ == "lemonJuice"@);
                    assert(drinks@[6].recipe@[3].amount@ == "1 cl"@);
                }
            } else if k == 7 {
                assert(drinks@[7].id@ == "cloverClub"@);
                assert(drinks@[7].display_name@ == "Clover Club"@);
                assert(drinks@[7].required@.len() == 4);
                assert forall|j: int| 0 <= j < builtin_required_len(7)
                    implies #[trigger] drinks@[7].required@[j]@
                    == builtin_ingredient_id(builtin_required_ing(7, j)) by {
                    assert(drinks@[7].required@[0]@ == "gin"@);
                    assert(drinks@[7].required@[1]@ == "lemonJuice"@);
                    assert(drinks@[7].required@[2]@ == "raspberrySyrup"@);
                    assert(drinks@[7].required@[3]@ == "eggWhite"@);
                }
                assert forall|j: int| 0 <= j < builtin_required_len(7)
                    implies #[trigger] drinks@[7].recipe@[j].ingredient_id@
                    == builtin_ingredient_id(builtin_required_ing(7, j))
                    && drinks@[7].recipe@[j].amount@ == builtin_amount(7, j) by {
                    assert(drinks@[7].recipe@[0].ingredient_id@ == "gin"@);
                    assert(drinks@[7].recipe@[0].amount@ == "4.5 cl"@);
                    assert(drinks@[7].recipe@[1].ingredient_id@ == "lemonJuice"@);
                    assert(drinks@[7].recipe@[1].amount@ == "1.5 cl"@);
                    assert(drinks@[7].recipe@[2].ingredient_id@ == "raspberrySyrup"@);
                    assert(drinks@[7].recipe@[2].amount@ == "1.5 cl"@);
                    assert(drinks@[7].recipe@[3].ingredient_id@ == "eggWhite"@);
                    assert(drinks@[7].recipe@[3].amount@ == "1 cl"@);
                }
            } else if k == 8 {
                assert(drinks@[8].id@ == "daiquiri"@);
                assert(drinks@[8].display_name@ == "Daiquiri"@);
                assert(drinks@[8].required@.len() == 3);
                assert forall|j: int| 0 <= j < builtin_required_len(8)
                    implies #[trigger] drinks@[8].required@[j]@
                    == builtin_ingredient_id(builtin_required_ing(8, j)) by {
                    assert(drinks@[8].required@[0]@ == "whiteRum"@);
                    assert(drinks@[8].required@[1]@ == "limeJuice"@);
                    assert(drinks@[8].required@[2]@ == "simpleSyrup"@);
                }
                assert forall|j: int| 0 <= j < builtin_required_len(8)
                    implies #[trigger] drinks@[8].recipe@[j].ingredient_id@
                    == builtin_ingredient_id(builtin_required_ing(8, j))
                    && drinks@[8].recipe@[j].amount@ == builtin_amount(8, j) by {
                    assert(drinks@[8].recipe@[0].ingredient_id@ == "whiteRum"@);
                    assert(drinks@[8].recipe@[0].amount@ == "4.5 cl"@);
                    assert(drinks@[8].recipe@[1].ingredient_id@ == "limeJuice"@);
                    assert(drinks@[8].recipe@[1].amount@ == "2.5 cl"@);
                    assert(drinks@[8].recipe@[2].ingredient_id@ == "simpleSyrup"@);
                    assert(drinks@[8].recipe@[2].amount@ == "1.5 cl"@);
                }
            } else if k == 9 {
                assert(drinks@[9].id@ == "derby"@);
                assert(drinks@[9].display_name@ == "Derby"@);
                assert(drinks@[9].required@.len() == 3);
                assert forall|j: int| 0 <= j < builtin_required_len(9)
                    implies #[trigger] drinks@[9].required@[j]@
                    == builtin_ingredient_id(builtin_required_ing(9, j)) by {
                    assert(drinks@[9].required@[0]@ == "gin"@);
                    assert(drinks@[9].required@[1]@ == "peachBitters"@);
                    assert(drinks@[9].required@[2]@ == "mintLeaves"@);
                }
                assert forall|j: int| 0 <= j < builtin_required_len(9)
                    implies #[trigger] drinks@[9].recipe@[j].ingredient_id@
                    == builtin_ingredient_id(builtin_required_ing(9, j))
                    && drinks@[9].recipe@[j].amount@ == builtin_amount(9, j) by {
                    assert(drinks@[9].recipe@[0].ingredient_id@ == "gin"@);
                    assert(drinks@[9].recipe@[0].amount@ == "6 cl"@);
                    assert(drinks@[9].recipe@[1].ingredient_id@ == "peachBitters"@);
                    assert(drinks@[9].recipe@[1].amount@ == "2 cl"@);
                    assert(drinks@[9].recipe@[2].ingredient_id@ == "mintLeaves"@);
                    assert(drinks@[9].recipe@[2].amount@ == "2 cl"@);
                }
            } else if k == 10 {
                assert(drinks@[10].id@ == "martini"@);
                assert(drinks@[10].display_name@ == "Martini"@);
                assert(drinks@[10].required@.len() == 2);
                assert forall|j: int| 0 <= j < builtin_required_len(10)
                    implies #[trigger] drinks@[10].required@[j]@
                    == builtin_ingredient_id(builtin_required_ing(10, j)) by {
                    assert(drinks@[10].required@[0]@ == "gin"@);
                    assert(drinks@[10].required@[1]@ == "dryVermouth"@);
                }
                assert forall|j: int| 0 <= j < builtin_required_len(10)
                    implies #[trigger] drinks@[10].recipe@[j].ingredient_id@
                    == builtin_ingredient_id(builtin_required_ing(10, j))
                    && drinks@[10].recipe@[j].amount@ == builtin_amount(10, j) by {
                    assert(drinks@[10].recipe@[0].ingredient_id@ == "gin"@);
                    assert(drinks@[10].recipe@[0].amount@ == "6 cl"@);
                    assert(drinks@[10].recipe@[1].ingredient_id@ == "dryVermouth"@);
                    assert(drinks@[10].recipe@[1].amount@ == "1 cl"@);
                }
            } else if k == 11 {
                assert(drinks@[11].id@ == "ginFizz"@);
                assert(drinks@[11].display_name@ == "Gin Fizz"@);
                assert(drinks@[11].required@.len() == 4);
                assert forall|j: int| 0 <= j < builtin_required_len(11)
                    implies #[trigger] drinks@[11].required@[j]@
                    == builtin_ingredient_id(builtin_required_ing(11, j)) by {
                    assert(drinks@[11].required@[0]@ == "gin"@);
                    assert(drinks@[11].required@[1]@ == "lemonJuice"@);
                    assert(drinks@[11].required@[2]@ == "gommeSyrup"@);
                    assert(drinks@[11].required@[3]@ == "sodaWater"@);
                }
                assert forall|j: int| 0 <= j < builtin_required_len(11)
                    implies #[trigger] drinks@[11].recipe@[j].ingredient_id@
                    == builtin_ingredient_id(builtin_required_ing(11, j))
                    && drinks@[11].recipe@[j].amount@ == builtin_amount(11, j) by {
                    assert(drinks@[11].recipe@[0].ingredient_id@ == "gin"@);
                    assert(drinks@[11].recipe@[0].amount@ == "4.5 cl"@);
                    assert(drinks@[11].recipe@[1].ingredient_id@ == "lemonJuice"@);
                    assert(drinks@[11].recipe@[1].amount@ == "3 cl"@);
                    assert(drinks@[11].recipe@[2].ingredient_id@ == "gommeSyrup"@);
                    assert(drinks@[11].recipe@[2].amount@ == "1 cl"@);
                    assert(drinks@[11].recipe@[3].ingredient_id@ == "sodaWater"@);
                    assert(drinks@[11].recipe@[3].amount@ == "8 cl"@);
                }
            } else if k == 12 {
                assert(drinks@[12].id@ == "johnCollins"@);
                assert(drinks@[12].display_name@ == "John Collins"@);
                assert(drinks@[12].required@.len() == 4);
                assert forall|j: int| 0 <= j < builtin_required_len(12)
                    implies #[trigger] drinks@[12].required@[j]@
                    == builtin_ingredient_id(builtin_required_ing(12, j)) by {
                    assert(drinks@[12].required@[0]@ == "gin"@);
                    assert(drinks@[12].required@[1]@ == "lemonJuice"@);
                    assert(drinks@[12].required@[2]@ == "simpleSyrup"@);
                    assert(drinks@[12].required@[3]@ == "sodaWater"@);
                }
                assert forall|j: int| 0 <= j < builtin_required_len(12)
                    implies #[trigger] drinks@[12].recipe@[j].ingredient_id@
                    == builtin_ingredient_id(builtin_required_ing(12, j))
                    && drinks@[12].recipe@[j].amount@ == builtin_amount(12, j) by {
                    assert(drinks@[12].recipe@[0].ingredient_id@ == "gin"@);
                    assert(drinks@[12].recipe@[0].amount@ == "4.5 cl"@);
                    assert(drinks@[12].recipe@[1].ingredient_id@ == "lemonJuice"@);
                    assert(drinks@[12].recipe@[1].amount@ == "3 cl"@);
                    assert(drinks@[12].recipe@[2].ingredient_id@ == "simpleSyrup"@);
                    assert(drinks@[12].recipe@[2].amount@ == "1.5 cl"@);
                    assert(drinks@[12].recipe@[3].ingredient_id@ == "sodaWater"@);
                    assert(drinks@[12].recipe@[3].amount@ == "6 cl"@);
                }
            } else if k == 13 {
                assert(drinks@[13].id@ == "manhattan"@);
                assert(drinks@[13].display_name@ == "Manhattan"@);
                assert(drinks@[13].required@.len() == 3);
                assert forall|j: int| 0 <= j < builtin_required_len(13)
                    implies #[trigger] drinks@[13].required@[j]@
                    == builtin_ingredient_id(builtin_required_ing(13, j)) by {
                    assert(drinks@[13].required@[0]@ == "rye"@);
                    assert(drinks@[13].required@[1]@ == "sweetVermouth"@);
                    assert(drinks@[13].required@[2]@ == "angosturaBitters"@);
                }
                assert forall|j: int| 0 <= j < builtin_required_len(13)
                    implies #[trigger] drinks@[13].recipe@[j].ingredient_id@
                    == builtin_ingredient_id(builtin_required_ing(13, j))
                    && drinks@[13].recipe@[j].amount@ == builtin_amount(13, j) by {
                    assert(drinks@[13].recipe@[0].ingredient_id@ == "rye"@);
                    assert(drinks@[13].recipe@[0].amount@ == "5 cl"@);
                    assert(drinks@[13].recipe@[1].ingredient_id@ == "sweetVermouth"@);
                    assert(drinks@[13].recipe@[1].amount@ == "2 cl"@);
                    assert(drinks@[13].recipe@[2].ingredient_id@ == "angosturaBitters"@);
                    assert(drinks@[13].recipe@[2].amount@ == "1 dash"@);
                }
            } else if k == 14 {
                assert(drinks@[14].id@ == "maryPickford"@);
                assert(drinks@[14].display_name@ == "Mary Pickford"@);
                assert(drinks@[14].required@.len() == 4);
                assert forall|j: int| 0 <= j < builtin_required_len(14)
                    implies #[trigger] drinks@[14].required@[j]@
                    == builtin_ingredient_id(builtin_required_ing(14, j)) by {
                    assert(drinks@[14].required@[0]@ == "whiteRum"@);
                    assert(drinks@[14].required@[1]@ == "pineappleJuice"@);
                    assert(drinks@[14].required@[2]@ == "grenadine"@);
                    assert(drinks@[14].required@[3]@ == "maraschino"@);
                }
                assert forall|j: int| 0 <= j < builtin_required_len(14)
                    implies #[trigger] drinks@[14].recipe@[j].ingredient_id@
                    == builtin_ingredient_id(builtin_required_ing(14, j))
                    && drinks@[14].recipe@[j].amount@ == builtin_amount(14, j) by {
                    assert(drinks@[14].recipe@[0].ingredient_id@ == "whiteRum"@);
                    assert(drinks@[14].recipe@[0].amount@ == "6 cl"@);
                    assert(drinks@[14].recipe@[1].ingredient_id@ == "pineappleJuice"@);
                    assert(drinks@[14].recipe@[1].amount@ == "6 cl"@);
                    assert(drinks@[14].recipe@[2].ingredient_id@ == "grenadine"@);
                    assert(drinks@[14].recipe@[2].amount@ == "1 cl"@);
                    assert(drinks@[14].recipe@[3].ingredient_id@ == "maraschino"@);
                    assert(drinks@[14].recipe@[3].amount@ == "1 cl"@);
                }
            } else if k == 15 {
                assert(drinks@[15].id@ == "monkeyGland"@);
                assert(drinks@[15].display_name@ == "Monkey Gland"@);
                assert(drinks@[15].required@.len() == 4);
                assert forall|j: int| 0 <= j < builtin_required_len(15)
                    implies #[trigger] drinks@[15].required@[j]@
                    == builtin_ingredient_id(builtin_required_ing(15, j)) by {
                    assert(drinks@[15].required@[0]@ == "gin"@);
                    assert(drinks@[15].required@[1]@ == "orangeJuice"@);
                    assert(drinks@[15].required@[2]@ == "absinthe"@);
                    assert(drinks@[15].required@[3]@ == "grenadine"@);
                }
                assert forall|j: int| 0 <= j < builtin_required_len(15)
                    implies #[trigger] drinks@[15].recipe@[j].ingredient_id@
                    == builtin_ingredient_id(builtin_required_ing(15, j))
                    && drinks@[15].recipe@[j].amount@ == builtin_amount(15, j) by {
                    assert(drinks@[15].recipe@[0].ingredient_id@ == "gin"@);
                    assert(drinks@[15].recipe@[0].amount@ == "5 cl"@);
                    assert(drinks@[15].recipe@[1].ingredient_id@ == "orangeJuice"@);
                    assert(drinks@[15].recipe@[1].amount@ == "3 cl"@);
                    assert(drinks@[15].recipe@[2].ingredient_id@ == "absinthe"@);
                    assert(drinks@[15].recipe@[2].amount@ == "2 cl"@);
                    assert(drinks@[15].recipe@[3].ingredient_id@ == "grenadine"@);
                    assert(drinks@[15].recipe@[3].amount@ == "2 cl"@);
                }
            } else if k == 16 {
                assert(drinks@[16].id@ == "negroni"@);
                assert(drinks@[16].display_name@ == "Negroni"@);
                assert(drinks@[16].required@.len() == 3);
                assert forall|j: int| 0 <= j < builtin_required_len(16)
                    implies #[trigger] drinks@[16].required@[j]@
                    == builtin_ingredient_id(builtin_required_ing(16, j)) by {
                    assert(drinks@[16].required@[0]@ == "gin"@);
                    assert(drinks@[16].required@[1]@ == "sweetVermouth"@);
                    assert(drinks@[16].required@[2]@ == "campari"@);
                }
                assert forall|j: int| 0 <= j < builtin_required_len(16)
                    implies #[trigger] drinks@[16].recipe@[j].ingredient_id@
                    == builtin_ingredient_id(builtin_required_ing(16, j))
                    && drinks@[16].recipe@[j].amount@ == builtin_amount(16, j) by {
                    assert(drinks@[16].recipe@[0].ingredient_id@ == "gin"@);
                    assert(drinks@[16].recipe@[0].amount@ == "3 cl"@);
                    assert(drinks@[16].recipe@[1].ingredient_id@ == "sweetVermouth"@);
                    assert(drinks@[16].recipe@[1].amount@ == "3 cl"@);
                    assert(drinks@[16].recipe@[2].ingredient_id@ == "campari"@);
                    assert(drinks@[16].recipe@[2].amount@ == "3 cl"@);
                }
            } else if k == 17 {
                assert(drinks@[17].id@ == "oldFashioned"@);
                assert(drinks@[17].display_name@ == "Old Fashioned"@);
                assert(drinks@[17].required@.len() == 4);
                assert forall|j: int| 0 <= j < builtin_required_len(17)
                    implies #[trigger] drinks@[17].required@[j]@
                    == builtin_ingredient_id(builtin_required_ing(17, j)) by {
                    assert(drinks@[17].required@[0]@ == "bourbon"@);
                    assert(drinks@[17].required@[1]@ == "angosturaBitters"@);
                    assert(drinks@[17].required@[2]@ == "sugarCube"@);
                    assert(drinks@[17].required@[3]@ == "water"@);
                }
                assert forall|j: int| 0 <= j < builtin_required_len(17)
                    implies #[trigger] drinks@[17].recipe@[j].ingredient_id@
                    == builtin_ingredient_id(builtin_required_ing(17, j))
                    && drinks@[17].recipe@[j].amount@ == builtin_amount(17, j) by {
                    assert(drinks@[17].recipe@[0].ingredient_id@ == "bourbon"@);
                    assert(drinks@[17].recipe@[0].amount@ == "4.5 cl"@);
                    assert(drinks@[17].recipe@[1].ingredient_id@ == "angosturaBitters"@);
                    assert(drinks@[17].recipe@[1].amount@ == "2 dashes"@);
                    assert(drinks@[17].recipe@[2].ingredient_id@ == "sugarCube"@);
                    assert(drinks@[17].recipe@[2].amount@ == "1"@);
                    assert(drinks@[17].recipe@[3].ingredient_id@ == "water"@);
                    assert(drinks@[17].recipe@[3].amount@ == "few dashes"@);
                }
            } else if k == 18 {
                assert(drinks@[18].id@ == "paradise"@);
                assert(drinks@[18].display_name@ == "Paradise"@);
                assert(drinks@[18].required@.len() == 3);
                assert forall|j: int| 0 <= j < builtin_required_len(18)
                    implies #[trigger] drinks@[18].required@[j]@
                    == builtin_ingredient_id(builtin_required_ing(18, j)) by {
                    assert(drinks@[18].required@[0]@ == "gin"@);
                    assert(drinks@[18].required@[1]@ == "apricotBrandy"@);
                    assert(drinks@[18].required@[2]@ == "orangeJuice"@);
                }
                assert forall|j: int| 0 <= j < builtin_required_len(18)
                    implies #[trigger] drinks@[18].recipe@[j].ingredient_id@
                    == builtin_ingredient_id(builtin_required_ing(18, j))
                    && drinks@[18].recipe@[j].amount@ == builtin_amount(18, j) by {
                    assert(drinks@[18].recipe@[0].ingredient_id@ == "gin"@);
                    assert(drinks@[18].recipe@[0].amount@ == "3.5 cl"@);
                    assert(drinks@[18].recipe@[1].ingredient_id@ == "apricotBrandy"@);
                    assert(drinks@[18].recipe@[1].amount@ == "2 cl"@);
                    assert(drinks@[18].recipe@[2].ingredient_id@ == "orangeJuice"@);
                    assert(drinks@[18].recipe@[2].amount@ == "1.5 cl"@);
                }
            } else if k == 19 {
                assert(drinks@[19].id@ == "plantersPunch"@);
                assert(drinks@[19].display_name@ == "Planter's Punch"@);
                assert(drinks@[19].required@.len() == 7);
                assert forall|j: int| 0 <= j < builtin_required_len(19)
                    implies #[trigger] drinks@[19].required@[j]@
                    == builtin_ingredient_id(builtin_required_ing(19, j)) by {
                    assert(drinks@[19].required@[0]@ == "rum"@);
                    assert(drinks@[19].required@[1]@ == "orangeJuice"@);
                    assert(drinks@[19].required@[2]@ == "pineappleJuice"@);
                    assert(drinks@[19].required@[3]@ == "lemonJuice"@);
                    assert(drinks@[19].required@[4]@ == "grenadine"@);
                    assert(drinks@[19].required@[5]@ == "simpleSyrup"@);
                    assert(drinks@[19].required@[6]@ == "angosturaBitters"@);
                }
                assert forall|j: int| 0 <= j < builtin_required_len(19)
                    implies #[trigger] drinks@[19].recipe@[j].ingredient_id@
                    == builtin_ingredient_id(builtin_required_ing(19, j))
                    && drinks@[19].recipe@[j].amount@ == builtin_amount(19, j) by {
                    assert(drinks@[19].recipe@[0].ingredient_id@ == "rum"@);
                    assert(drinks@[19].recipe@[0].amount@ == "4.5 cl"@);
                    assert(drinks@[19].recipe@[1].ingredient_id@ == "orangeJuice"@);
                    assert(drinks@[19].recipe@[1].amount@ == "3.5 cl"@);
                    assert(drinks@[19].recipe@[2].ingredient_id@ == "pineappleJuice"@);
                    assert(drinks@[19].recipe@[2].amount@ == "3.5 cl"@);
                    assert(drinks@[19].recipe@[3].ingredient_id@ == "lemonJuice"@);
                    assert(drinks@[19].recipe@[3].amount@ == "2 cl"@);
                    assert(drinks@[19].recipe@[4].ingredient_id@ == "grenadine"@);
                    assert(drinks@[19].recipe@[4].amount@ == "1 cl"@);
                    assert(drinks@[19].recipe@[5].ingredient_id@ == "simpleSyrup"@);
                    assert(drinks@[19].recipe@[5].amount@ == "1 cl"@);
                    assert(drinks@[19].recipe@[6].ingredient_id@ == "angosturaBitters"@);
                    assert(drinks@[19].recipe@[6].amount@ == "few dashes"@);
                }
            } else if k == 20 {
                assert(drinks@[20].id@ == "portoFlip"@);
                assert(drinks@[20].display_name@ == "Porto Flip"@);
                assert(drinks@[20].required@.len() == 3);
                assert forall|j: int| 0 <= j < builtin_required_len(20)
                    implies #[trigger] drinks@[20].required@[j]@
                    == builtin_ingredient_id(builtin_required_ing(20, j)) by {
                    assert(drinks@[20].required@[0]@ == "brandy"@);
                    assert(drinks@[20].required@[1]@ == "port"@);
                    assert(drinks@[20].required@[2]@ == "eggYolk"@);
                }
                assert forall|j: int| 0 <= j < builtin_required_len(20)
                    implies #[trigger] drinks@[20].recipe@[j].ingredient_id@
                    == builtin_ingredient_id(builtin_required_ing(20, j))
                    && drinks@[20].recipe@[j].amount@ == builtin_amount(20, j) by {
                    assert(drinks@[20].recipe@[0].ingredient_id@ == "brandy"@);
                    assert(drinks@[20].recipe@[0].amount@ == "1.5 cl"@);
                    assert(drinks@[20].recipe@[1].ingredient_id@ == "port"@);
                    assert(drinks@[20].recipe@[1].amount@ == "4.5 cl"@);
                    assert(drinks@[20].recipe@[2].ingredient_id@ == "eggYolk"@);
                    assert(drinks@[20].recipe@[2].amount@ == "1 cl"@);
                }
            } else if k == 21 {
                assert(drinks@[21].id@ == "ramosGinFizz"@);
                assert(drinks@[21].display_name@ == "Ramos Gin Fizz"@);
                assert(drinks@[21].required@.len() == 9);
                assert forall|j: int| 0 <= j < builtin_required_len(21)
                    implies #[trigger] drinks@[21].required@[j]@
                    == builtin_ingredient_id(builtin_required_ing(21, j)) by {
                    assert(drinks@[21].required@[0]@ == "gin"@);
                    assert(drinks@[21].required@[1]@ == "limeJuice"@);
                    assert(drinks@[21].required@[2]@ == "lemonJuice"@);
                    assert(drinks@[21].required@[3]@ == "simpleSyrup"@);
                    assert(drinks@[21].required@[4]@ == "cream"@);
                    assert(drinks@[21].required@[5]@ == "eggWhite"@);
                    assert(drinks@[21].required@[6]@ == "orangeFlowerWater"@);
                    assert(drinks@[21].required@[7]@ == "vanillaExtract"@);
                    assert(drinks@[21].required@[8]@ == "sodaWater"@);
                }
                assert forall|j: int| 0 <= j < builtin_required_len(21)
                    implies #[trigger] drinks@[21].recipe@[j].ingredient_id@
                    == builtin_ingredient_id(builtin_required_ing(21, j))
                    && drinks@[21].recipe@[j].amount@ == builtin_amount(21, j) by {
                    assert(drinks@[21].recipe@[0].ingredient_id@ == "gin"@);
                    assert(drinks@[21].recipe@[0].amount@ == "4.5 cl"@);
                    assert(drinks@[21].recipe@[1].ingredient_id@ == "limeJuice"@);
                    assert(drinks@[21].recipe@[1].amount@ == "1.5 cl"@);
                    assert(drinks@[21].recipe@[2].ingredient_id@ == "lemonJuice"@);
                    assert(drinks@[21].recipe@[2].amount@ == "1.5 cl"@);
                    assert(drinks@[21].recipe@[3].ingredient_id@ == "simpleSyrup"@);
                    assert(drinks@[21].recipe@[3].amount@ == "3 cl"@);
                    assert(drinks@[21].recipe@[4].ingredient_id@ == "cream"@);
                    assert(drinks@[21].recipe@[4].amount@ == "6 cl"@);
                    assert(drinks@[21].recipe@[5].ingredient_id@ == "eggWhite"@);
                    assert(drinks@[21].recipe@[5].amount@ == "1"@);
                    assert(drinks@[21].recipe@[6].ingredient_id@ == "orangeFlowerWater"@);
                    assert(drinks@[21].recipe@[6].amount@ == "3 dashes"@);
                    assert(drinks@[21].recipe@[7].ingredient_id@ == "vanillaExtract"@);
                    assert(drinks@[21].recipe@[7].amount@ == "2 drops"@);
                    assert(drinks@[21].recipe@[8].ingredient_id@ == "sodaWater"@);
                    assert(drinks@[21].recipe@[8].amount@ == "top"@);
                }
            } else if k == 22 {
                assert(drinks@[22].id@ == "rustyNail"@);
                assert(drinks@[22].display_name@ == "Rusty Nail"@);
                assert(drinks@[22].required@.len() == 2);
                assert forall|j: int| 0 <= j < builtin_required_len(22)
                    implies #[trigger] drinks@[22].required@[j]@
                    == builtin_ingredient_id(builtin_required_ing(22, j)) by {
                    assert(drinks@[22].required@[0]@ == "scotch"@);
                    assert(drinks@[22].required@[1]@ == "drambuie"@);
                }
                assert forall|j: int| 0 <= j < builtin_required_len(22)
                    implies #[trigger] drinks@[22].recipe@[j].ingredient_id@
                    == builtin_ingredient_id(builtin_required_ing(22, j))
                    && drinks@[22].recipe@[j].amount@ == builtin_amount(22, j) by {
                    assert(drinks@[22].recipe@[0].ingredient_id@ == "scotch"@);
                    assert(drinks@[22].recipe@[0].amount@ == "4.5 cl"@);
                    assert(drinks@[22].recipe@[1].ingredient_id@ == "drambuie"@);
                    assert(drinks@[22].recipe@[1].amount@ == "2.5 cl"@);
                }
            } else if k == 23 {
                assert(drinks@[23].id@ == "sazerac"@);
                assert(drinks@[23].display_name@ == "Sazerac"@);
                assert(drinks@[23].required@.len() == 4);
                assert forall|j: int| 0 <= j < builtin_required_len(23)
                    implies #[trigger] drinks@[23].required@[j]@
                    == builtin_ingredient_id(builtin_required_ing(23, j)) by {
                    assert(drinks@[23].required@[0]@ == "cognac"@);
                    assert(drinks@[23].required@[1]@ == "absinthe"@);
                    assert(drinks@[23].required@[2]@ == "sugarCube"@);
                    assert(drinks@[23].required@[3]@ == "peychaudsBitters"@);
                }
                assert forall|j: int| 0 <= j < builtin_required_len(23)
                    implies #[trigger] drinks@[23].recipe@[j].ingredient_id@
                    == builtin_ingredient_id(builtin_required_ing(23, j))
                    && drinks@[23].recipe@[j].amount@ == builtin_amount(23, j) by {
                    assert(drinks@[23].recipe@[0].ingredient_id@ == "cognac"@);
                    assert(drinks@[23].recipe@[0].amount@ == "5 cl"@);
                    assert(drinks@[23].recipe@[1].ingredient_id@ == "absinthe"@);
                    assert(drinks@[23].recipe@[1].amount@ == "1 cl"@);
                    assert(drinks@[23].recipe@[2].ingredient_id@ == "sugarCube"@);
                    assert(drinks@[23].recipe@[2].amount@ == "1"@);
                    assert(drinks@[23].recipe@[3].ingredient_id@ == "peychaudsBitters"@);
                    assert(drinks@[23].recipe@[3].amount@ == "2 dashes"@);
                }
            } else if k == 24 {
                assert(drinks@[24].id@ == "screwdriver"@);
                assert(drinks@[24].display_name@ == "Screwdriver"@);
                assert(drinks@[24].required@.len() == 2);
                assert forall|j: int| 0 <= j < builtin_required_len(24)
                    implies #[trigger] drinks@[24].required@[j]@
                    == builtin_ingredient_id(builtin_required_ing(24, j)) by {
                    assert(drinks@[24].required@[0]@ == "vodka"@);
                    assert(drinks@[24].required@[1]@ == "orangeJuice"@);
                }
                assert forall|j: int| 0 <= j < builtin_required_len(24)
                    implies #[trigger] drinks@[24].recipe@[j].ingredient_id@
                    == builtin_ingredient_id(builtin_required_ing(24, j))
                    && drinks@[24].recipe@[j].amount@ == builtin_amount(24, j) by {
                    assert(drinks@[24].recipe@[0].ingredient_id@ == "vodka"@);
                    assert(drinks@[24].recipe@[0].amount@ == "5 cl"@);
                    assert(drinks@[24].recipe@[1].ingredient_id@ == "orangeJuice"@);
                    assert(drinks@[24].recipe@[1].amount@ == "10 cl"@);
                }
            } else if k == 25 {
                assert(drinks@[25].id@ == "sidecar"@);
                assert(drinks@[25].display_name@ == "Sidecar"@);
                assert(drinks@[25].required@.len() == 3);
                assert forall|j: int| 0 <= j < builtin_required_len(25)
                    implies #[trigger] drinks@[25].required@[j]@
                    == builtin_ingredient_id(builtin_required_ing(25, j)) by {
                    assert(drinks@[25].required@[0]@ == "cognac"@);
                    assert(drinks@[25].required@[1]@ == "tripleSec"@);
                    assert(drinks@[25].required@[2]@ == "lemonJuice"@);
                }
                assert forall|j: int| 0 <= j < builtin_required_len(25)
                    implies #[trigger] drinks@[25].recipe@[j].ingredient_id@
                    == builtin_ingredient_id(builtin_required_ing(25, j))
                    && drinks@[25].recipe@[j].amount@ == builtin_amount(25, j) by {
                    assert(drinks@[25].recipe@[0].ingredient_id@ == "cognac"@);
                    assert(drinks@[25].recipe@[0].amount@ == "5 cl"@);
                    assert(drinks@[25].recipe@[1].ingredient_id@ == "tripleSec"@);
                    assert(drinks@[25].recipe@[1].amount@ == "2 cl"@);
                    assert(drinks@[25].recipe@[2].ingredient_id@ == "lemonJuice"@);
                    assert(drinks@[25].recipe@[2].amount@ == "2 cl"@);
                }
            } else if k == 26 {
                assert(drinks@[26].id@ == "stinger"@);
                assert(drinks@[26].display_name@ == "Stinger"@);
                assert(drinks@[26].required@.len() == 2);
                assert forall|j: int| 0 <= j < builtin_required_len(26)
                    implies #[trigger] drinks@[26].required@[j]@
                    == builtin_ingredient_id(builtin_required_ing(26, j)) by {
                    assert(drinks@[26].required@[0]@ == "cognac"@);
                    assert(drinks@[26].required@[1]@ == "cremeDeMenthe"@);
                }
                assert forall|j: int| 0 <= j < builtin_required_len(26)
                    implies #[trigger] drinks@[26].recipe@[j].ingredient_id@
                    == builtin_ingredient_id(builtin_required_ing(26, j))
                    && drinks@[26].recipe@[j].amount@ == builtin_amount(26, j) by {
                    assert(drinks@[26].recipe@[0].ingredient_id@ == "cognac"@);
                    assert(drinks@[26].recipe@[0].amount@ == "5 cl"@);
                    assert(drinks@[26].recipe@[1].ingredient_id@ == "cremeDeMenthe"@);
                    assert(drinks@[26].recipe@[1].amount@ == "2 cl"@);
                }
            } else if k == 27 {
                assert(drinks@[27].id@ == "tuxedo"@);
                assert(drinks@[27].display_name@ == "Tuxedo"@);
                assert(drinks@[27].required@.len() == 5);
                assert forall|j: int| 0 <= j < builtin_required_len(27)
                    implies #[trigger] drinks@[27].required@[j]@
                    == builtin_ingredient_id(builtin_required_ing(27, j)) by {
                    assert(drinks@[27].required@[0]@ == "gin"@);
                    assert(drinks@[27].required@[1]@ == "dryVermouth"@);
                    assert(drinks@[27].required@[2]@ == "maraschino"@);
                    assert(drinks@[27].required@[3]@ == "absinthe"@);
                    assert(drinks@[27].required@[4]@ == "orangeBitters"@);
                }
                assert forall|j: int| 0 <= j < builtin_required_len(27)
                    implies #[trigger] drinks@[27].recipe@[j].ingredient_id@
                    == builtin_ingredient_id(builtin_required_ing(27, j))
                    && drinks@[27].recipe@[j].amount@ == builtin_amount(27, j) by {
                    assert(drinks@[27].recipe@[0].ingredient_id@ == "gin"@);
                    assert(drinks@[27].recipe@[0].amount@ == "3 cl"@);
                    assert(drinks@[27].recipe@[1].ingredient_id@ == "dryVermouth"@);
                    assert(drinks@[27].recipe@[1].amount@ == "3 cl"@);
                    assert(drinks@[27].recipe@[2].ingredient_id@ == "maraschino"@);
                    assert(drinks@[27].recipe@[2].amount@ == "0.5 barspoon"@);
                    assert(drinks@[27].recipe@[3].ingredient_id@ == "absinthe"@);
                    assert(drinks@[27].recipe@[3].amount@ == "0.25 barspoon"@);
                    assert(drinks@[27].recipe@[4].ingredient_id@ == "orangeBitters"@);
                    assert(drinks@[27].recipe@[4].amount@ == "3 dashes"@);
                }
            } else if k == 28 {
                assert(drinks@[28].id@ == "whiskeySour"@);
                assert(drinks@[28].display_name@ == "Whiskey Sour"@);
                assert(drinks@[28].required@.len() == 4);
                assert forall|j: int| 0 <= j < builtin_required_len(28)
                    implies #[trigger] drinks@[28].required@[j]@
                    == builtin_ingredient_id(builtin_required_ing(28, j)) by {
                    assert(drinks@[28].required@[0]@ == "bourbon"@);
                    assert(drinks@[28].required@[1]@ == "lemonJuice"@);
                    assert(drinks@[28].required@[2]@ == "gommeSyrup"@);
                    assert(drinks@[28].required@[3]@ == "eggWhite"@);
                }
                assert forall|j: int| 0 <= j < builtin_required_len(28)
                    implies #[trigger] drinks@[28].recipe@[j].ingredient_id@
                    == builtin_ingredient_id(builtin_required_ing(28, j))
                    && drinks@[28].recipe@[j].amount@ == builtin_amount(28, j) by {
                    assert(drinks@[28].recipe@[0].ingredient_id@ == "bourbon"@);
                    assert(drinks@[28].recipe@[0].amount@ == "4.5 cl"@);
                    assert(drinks@[28].recipe@[1].ingredient_id@ == "lemonJuice"@);
                    assert(drinks@[28].recipe@[1].amount@ == "3 cl"@);
                    assert(drinks@[28].recipe@[2].ingredient_id@ == "gommeSyrup"@);
                    assert(drinks@[28].recipe@[2].amount@ == "1.5 cl"@);
                    assert(drinks@[28].recipe@[3].ingredient_id@ == "eggWhite"@);
                    assert(drinks@[28].recipe@[3].amount@ == "1 dash"@);
                }
            } else if k == 29 {
                assert(drinks@[29].id@ == "whiteLady"@);
                assert(drinks@[29].display_name@ == "White Lady"@);
                assert(drinks@[29].required@.len() == 3);
                assert forall|j: int| 0 <= j < builtin_required_len(29)
                    implies #[trigger] drinks@[29].required@[j]@
                    == builtin_ingredient_id(builtin_required_ing(29, j)) by {
                    assert(drinks@[29].required@[0]@ == "gin"@);
                    assert(drinks@[29].required@[1]@ == "tripleSec"@);
                    assert(drinks@[29].required@[2]@ == "lemonJuice"@);
                }
                assert forall|j: int| 0 <= j < builtin_required_len(29)
                    implies #[trigger] drinks@[29].recipe@[j].ingredient_id@
                    == builtin_ingredient_id(builtin_required_ing(29, j))
                    && drinks@[29].recipe@[j].amount@ == builtin_amount(29, j) by {
                    assert(drinks@[29].recipe@[0].ingredient_id@ == "gin"@);
                    assert(drinks@[29].recipe@[0].amount@ == "4 cl"@);
                    assert(drinks@[29].recipe@[1].ingredient_id@ == "tripleSec"@);
                    assert(drinks@[29].recipe@[1].amount@ == "3 cl"@);
                    assert(drinks@[29].recipe@[2].ingredient_id@ == "lemonJuice"@);
                    assert(drinks@[29].recipe@[2].amount@ == "2 cl"@);
                }
            }
        }
    }
    drinks
}

/// No two entries of the built-in ingredient table share an id.
#[verifier::rlimit(100)]
proof fn lemma_ingredient_ids_injective()
    ensures
        forall|p: int, q: int|
            0 <= p < 42 && 0 <= q < 42 && p != q ==> builtin_ingredient_id(p)
                != builtin_ingredient_id(q),
{
    reveal_strlit("absinthe");
    reveal_strlit("angosturaBitters");
    reveal_strlit("apricotBrandy");
    reveal_strlit("bourbon");
    reveal_strlit("brandy");
    reveal_strlit("calvados");
    reveal_strlit("campari");
    reveal_strlit("cognac");
    reveal_strlit("cream");
    reveal_strlit("cremeDeCacao");
    reveal_strlit("cremeDeMenthe");
    reveal_strlit("drambuie");
    reveal_strlit("dryVermouth");
    reveal_strlit("eggWhite");
    reveal_strlit("eggYolk");
    reveal_strlit("gin");
    reveal_strlit("gommeSyrup");
    reveal_strlit("grenadine");
    reveal_strlit("lemonJuice");
    reveal_strlit("limeJuice");
    reveal_strlit("maraschino");
    reveal_strlit("mintLeaves");
    reveal_strlit("orangeBitters");
    reveal_strlit("orangeFlowerWater");
    reveal_strlit("orangeJuice");
    reveal_strlit("peachBitters");
    reveal_strlit("peychaudsBitters");
    reveal_strlit("pineappleJuice");
    reveal_strlit("port");
    reveal_strlit("raspberrySyrup");
    reveal_strlit("rye");
    reveal_strlit("rum");
    reveal_strlit("scotch");
    reveal_strlit("simpleSyrup");
    reveal_strlit("sodaWater");
    reveal_strlit("sugarCube");
    reveal_strlit("sweetVermouth");
    reveal_strlit("tripleSec");
    reveal_strlit("vanillaExtract");
    reveal_strlit("vodka");
    reveal_strlit("water");
    reveal_strlit("whiteRum");
    assert forall|p: int, q: int| 0 <= p < 42 && 0 <= q < 42 && p != q
        implies builtin_ingredient_id(p) != builtin_ingredient_id(q) by {
        assert(builtin_ingredient_id(0).len() == 8);
        assert(builtin_ingredient_id(0)[0] == 'a');
        assert(builtin_ingredient_id(0)[1] == 'b');
        assert(builtin_ingredient_id(1).len() == 16);
        assert(builtin_ingredient_id(1)[0] == 'a');
        assert(builtin_ingredient_id(1)[1] == 'n');
        assert(builtin_ingredient_id(2).len() == 13);
        assert(builtin_ingredient_id(2)[0] == 'a');
        assert(builtin_ingredient_id(2)[1] == 'p');
        assert(builtin_ingredient_id(3).len() == 7);
        assert(builtin_ingredient_id(3)[0] == 'b');
        assert(builtin_ingredient_id(3)[1] == 'o');
        assert(builtin_ingredient_id(4).len() == 6);
        assert(builtin_ingredient_id(4)[0] == 'b');
        assert(builtin_ingredient_id(4)[1] == 'r');
        assert(builtin_ingredient_id(5).len() == 8);
        assert(builtin_ingredient_id(5)[0] == 'c');
        assert(builtin_ingredient_id(5)[1] == 'a');
        assert(builtin_ingredient_id(6).len() == 7);
        assert(builtin_ingredient_id(6)[0] == 'c');
        assert(builtin_ingredient_id(6)[1] == 'a');
        assert(builtin_ingredient_id(7).len() == 6);
        assert(builtin_ingredient_id(7)[0] == 'c');
        assert(builtin_ingredient_id(7)[1] == 'o');
        assert(builtin_ingredient_id(8).len() == 5);
        assert(builtin_ingredient_id(8)[0] == 'c');
        assert(builtin_ingredient_id(8)[1] == 'r');
        assert(builtin_ingredient_id(9).len() == 12);
        assert(builtin_ingredient_id(9)[0] == 'c');
        assert(builtin_ingredient_id(9)[1] == 'r');
        assert(builtin_ingredient_id(10).len() == 13);
        assert(builtin_ingredient_id(10)[0] == 'c');
        assert(builtin_ingredient_id(10)[1] == 'r');
        assert(builtin_ingredient_id(11).len() == 8);
        assert(builtin_ingredient_id(11)[0] == 'd');
        assert(builtin_ingredient_id(11)[1] == 'r');
        assert(builtin_ingredient_id(12).len() == 11);
        assert(builtin_ingredient_id(12)[0] == 'd');
        assert(builtin_ingredient_id(12)[1] == 'r');
        assert(builtin_ingredient_id(13).len() == 8);
        assert(builtin_ingredient_id(13)[0] == 'e');
        assert(builtin_ingredient_id(13)[1] == 'g');
        assert(builtin_ingredient_id(14).len() == 7);
        assert(builtin_ingredient_id(14)[0] == 'e');
        assert(builtin_ingredient_id(14)[1] == 'g');
        assert(builtin_ingredient_id(15).len() == 3);
        assert(builtin_ingredient_id(15)[0] == 'g');
        assert(builtin_ingredient_id(15)[1] == 'i');
        assert(builtin_ingredient_id(16).len() == 10);
        assert(builtin_ingredient_id(16)[0] == 'g');
        assert(builtin_ingredient_id(16)[1] == 'o');
        assert(builtin_ingredient_id(17).len() == 9);
        assert(builtin_ingredient_id(17)[0] == 'g');
        assert(builtin_ingredient_id(17)[1] == 'r');
        assert(builtin_ingredient_id(18).len() == 10);
        assert(builtin_ingredient_id(18)[0] == 'l');
        assert(builtin_ingredient_id(18)[1] == 'e');
        assert(builtin_ingredient_id(19).len() == 9);
        assert(builtin_ingredient_id(19)[0] == 'l');
        assert(builtin_ingredient_id(19)[1] == 'i');
        assert(builtin_ingredient_id(20).len() == 10);
        assert(builtin_ingredient_id(20)[0] == 'm');
        assert(builtin_ingredient_id(20)[1] == 'a');
        assert(builtin_ingredient_id(21).len() == 10);
        assert(builtin_ingredient_id(21)[0] == 'm');
        assert(builtin_ingredient_id(21)[1] == 'i');
        assert(builtin_ingredient_id(22).len() == 13);
        assert(builtin_ingredient_id(22)[0] == 'o');
        assert(builtin_ingredient_id(22)[1] == 'r');
        assert(builtin_ingredient_id(23).len() == 17);
        assert(builtin_ingredient_id(23)[0] == 'o');
        assert(builtin_ingredient_id(23)[1] == 'r');
        assert(builtin_ingredient_id(24).len() == 11);
        assert(builtin_ingredient_id(24)[0] == 'o');
        assert(builtin_ingredient_id(24)[1] == 'r');
        assert(builtin_ingredient_id(25).len() == 12);
        assert(builtin_ingredient_id(25)[0] == 'p');
        assert(builtin_ingredient_id(25)[1] == 'e');
        assert(builtin_ingredient_id(26).len() == 16);
        assert(builtin_ingredient_id(26)[0] == 'p');
        assert(builtin_ingredient_id(26)[1] == 'e');
        assert(builtin_ingredient_id(27).len() == 14);
        assert(builtin_ingredient_id(27)[0] == 'p');
        assert(builtin_ingredient_id(27)[1] == 'i');
        assert(builtin_ingredient_id(28).len() == 4);
        assert(builtin_ingredient_id(28)[0] == 'p');
        assert(builtin_ingredient_id(28)[1] == 'o');
        assert(builtin_ingredient_id(29).len() == 14);
        assert(builtin_ingredient_id(29)[0] == 'r');
        assert(builtin_ingredient_id(29)[1] == 'a');
        assert(builtin_ingredient_id(30).len() == 3);
        assert(builtin_ingredient_id(30)[0] == 'r');
        assert(builtin_ingredient_id(30)[1] == 'y');
        assert(builtin_ingredient_id(31).len() == 3);
        assert(builtin_ingredient_id(31)[0] == 'r');
        assert(builtin_ingredient_id(31)[1] == 'u');
        assert(builtin_ingredient_id(32).len() == 6);
        assert(builtin_ingredient_id(32)[0] == 's');
        assert(builtin_ingredient_id(32)[1] == 'c');
        assert(builtin_ingredient_id(33).len() == 11);
        assert(builtin_ingredient_id(33)[0] == 's');
        assert(builtin_ingredient_id(33)[1] == 'i');
        assert(builtin_ingredient_id(34).len() == 9);
        assert(builtin_ingredient_id(34)[0] == 's');
        assert(builtin_ingredient_id(34)[1] == 'o');
        assert(builtin_ingredient_id(35).len() == 9);
        assert(builtin_ingredient_id(35)[0] == 's');
        assert(builtin_ingredient_id(35)[1] == 'u');
        assert(builtin_ingredient_id(36).len() == 13);
        assert(builtin_ingredient_id(36)[0] == 's');
        assert(builtin_ingredient_id(36)[1] == 'w');
        assert(builtin_ingredient_id(37).len() == 9);
        assert(builtin_ingredient_id(37)[0] == 't');
        assert(builtin_ingredient_id(37)[1] == 'r');
        assert(builtin_ingredient_id(38).len() == 14);
        assert(builtin_ingredient_id(38)[0] == 'v');
        assert(builtin_ingredient_id(38)[1] == 'a');
        assert(builtin_ingredient_id(39).len() == 5);
        assert(builtin_ingredient_id(39)[0] == 'v');
        assert(builtin_ingredient_id(39)[1] == 'o');
        assert(builtin_ingredient_id(40).len() == 5);
        assert(builtin_ingredient_id(40)[0] == 'w');
        assert(builtin_ingredient_id(40)[1] == 'a');
        assert(builtin_ingredient_id(41).len() == 8);
        assert(builtin_ingredient_id(41)[0] == 'w');
        assert(builtin_ingredient_id(41)[1] == 'h');
    }
}

/// No two entries of the built-in drink table share an id.
#[verifier::rlimit(100)]
proof fn lemma_drink_ids_injective()
    ensures
        forall|p: int, q: int|
            0 <= p < 30 && 0 <= q < 30 && p != q ==> builtin_drink_id(p)
                != builtin_drink_id(q),
{
    reveal_strlit("alexander");
    reveal_strlit("americano");
    reveal_strlit("angelFace");
    reveal_strlit("aviation");
    reveal_strlit("bacardi");
    reveal_strlit("betweenTheSheets");
    reveal_strlit("casino");
    reveal_strlit("cloverClub");
    reveal_strlit("daiquiri");
    reveal_strlit("derby");
    reveal_strlit("martini");
    reveal_strlit("ginFizz");
    reveal_strlit("johnCollins");
    reveal_strlit("manhattan");
    reveal_strlit("maryPickford");
    reveal_strlit("monkeyGland");
    reveal_strlit("negroni");
    reveal_strlit("oldFashioned");
    reveal_strlit("paradise");
    reveal_strlit("plantersPunch");
    reveal_strlit("portoFlip");
    reveal_strlit("ramosGinFizz");
    reveal_strlit("rustyNail");
    reveal_strlit("sazerac");
    reveal_strlit("screwdriver");
    reveal_strlit("sidecar");
    reveal_strlit("stinger");
    reveal_strlit("tuxedo");
    reveal_strlit("whiskeySour");
    reveal_strlit("whiteLady");
    assert forall|p: int, q: int| 0 <= p < 30 && 0 <= q < 30 && p != q
        implies builtin_drink_id(p) != builtin_drink_id(q) by {
        assert(builtin_drink_id(0).len() == 9);
        assert(builtin_drink_id(0)[0] == 'a');
        assert(builtin_drink_id(0)[1] == 'l');
        assert(builtin_drink_id(1).len() == 9);
        assert(builtin_drink_id(1)[0] == 'a');
        assert(builtin_drink_id(1)[1] == 'm');
        assert(builtin_drink_id(2).len() == 9);
        assert(builtin_drink_id(2)[0] == 'a');
        assert(builtin_drink_id(2)[1] == 'n');
        assert(builtin_drink_id(3).len() == 8);
        assert(builtin_drink_id(3)[0] == 'a');
        assert(builtin_drink_id(3)[1] == 'v');
        assert(builtin_drink_id(4).len() == 7);
        assert(builtin_drink_id(4)[0] == 'b');
        assert(builtin_drink_id(4)[1] == 'a');
        assert(builtin_drink_id(5).len() == 16);
        assert(builtin_drink_id(5)[0] == 'b');
        assert(builtin_drink_id(5)[1] == 'e');
        assert(builtin_drink_id(6).len() == 6);
        assert(builtin_drink_id(6)[0] == 'c');
        assert(builtin_drink_id(6)[1] == 'a');
        assert(builtin_drink_id(7).len() == 10);
        assert(builtin_drink_id(7)[0] == 'c');
        assert(builtin_drink_id(7)[1] == 'l');
        assert(builtin_drink_id(8).len() == 8);
        assert(builtin_drink_id(8)[0] == 'd');
        assert(builtin_drink_id(8)[1] == 'a');
        assert(builtin_drink_id(9).len() == 5);
        assert(builtin_drink_id(9)[0] == 'd');
        assert(builtin_drink_id(9)[1] == 'e');
        assert(builtin_drink_id(10).len() == 7);
        assert(builtin_drink_id(10)[0] == 'm');
        assert(builtin_drink_id(10)[1] == 'a');
        assert(builtin_drink_id(11).len() == 7);
        assert(builtin_drink_id(11)[0] == 'g');
        assert(builtin_drink_id(11)[1] == 'i');
        assert(builtin_drink_id(12).len() == 11);
        assert(builtin_drink_id(12)[0] == 'j');
        assert(builtin_drink_id(12)[1] == 'o');
        assert(builtin_drink_id(13).len() == 9);
        assert(builtin_drink_id(13)[0] == 'm');
        assert(builtin_drink_id(13)[1] == 'a');
        assert(builtin_drink_id(14).len() == 12);
        assert(builtin_drink_id(14)[0] == 'm');
        assert(builtin_drink_id(14)[1] == 'a');
        assert(builtin_drink_id(15).len() == 11);
        assert(builtin_drink_id(15)[0] == 'm');
        assert(builtin_drink_id(15)[1] == 'o');
        assert(builtin_drink_id(16).len() == 7);
        assert(builtin_drink_id(16)[0] == 'n');
        assert(builtin_drink_id(16)[1] == 'e');
        assert(builtin_drink_id(17).len() == 12);
        assert(builtin_drink_id(17)[0] == 'o');
        assert(builtin_drink_id(17)[1] == 'l');
        assert(builtin_drink_id(18).len() == 8);
        assert(builtin_drink_id(18)[0] == 'p');
        assert(builtin_drink_id(18)[1] == 'a');
        assert(builtin_drink_id(19).len() == 13);
        assert(builtin_drink_id(19)[0] == 'p');
        assert(builtin_drink_id(19)[1] == 'l');
        assert(builtin_drink_id(20).len() == 9);
        assert(builtin_drink_id(20)[0] == 'p');
        assert(builtin_drink_id(20)[1] == 'o');
        assert(builtin_drink_id(21).len() == 12);
        assert(builtin_drink_id(21)[0] == 'r');
        assert(builtin_drink_id(21)[1] == 'a');
        assert(builtin_drink_id(22).len() == 9);
        assert(builtin_drink_id(22)[0] == 'r');
        assert(builtin_drink_id(22)[1] == 'u');
        assert(builtin_drink_id(23).len() == 7);
        assert(builtin_drink_id(23)[0] == 's');
        assert(builtin_drink_id(23)[1] == 'a');
        assert(builtin_drink_id(24).len() == 11);
        assert(builtin_drink_id(24)[0] == 's');
        assert(builtin_drink_id(24)[1] == 'c');
        assert(builtin_drink_id(25).len() == 7);
        assert(builtin_drink_id(25)[0] == 's');
        assert(builtin_drink_id(25)[1] == 'i');
        assert(builtin_drink_id(26).len() == 7);
        assert(builtin_drink_id(26)[0] == 's');
        assert(builtin_drink_id(26)[1] == 't');
        assert(builtin_drink_id(27).len() == 6);
        assert(builtin_drink_id(27)[0] == 't');
        assert(builtin_drink_id(27)[1] == 'u');
        assert(builtin_drink_id(28).len() == 11);
        assert(builtin_drink_id(28)[0] == 'w');
        assert(builtin_drink_id(28)[1] == 'h');
        assert(builtin_drink_id(29).len() == 9);
        assert(builtin_drink_id(29)[0] == 'w');
        assert(builtin_drink_id(29)[1] == 'h');
    }
}

/// The built-in tables satisfy the catalog invariant.
#[verifier::rlimit(100)]
proof fn lemma_builtin_tables_wf(ings: Seq<Ingredient>, drinks: Seq<Drink>)
    requires
        builtin_ingredients_ok(ings),
        builtin_drinks_ok(drinks),
    ensures
        catalog_data_wf(ings, drinks),
{
    lemma_ingredient_ids_injective();
    lemma_drink_ids_injective();
    assert(distinct_ingredient_ids(ings)) by {
        assert forall|p: int, q: int| 0 <= p < q < ings.len() implies #[trigger] ings[p].id@
            != #[trigger] ings[q].id@ by {
            assert(ings[p].id@ == builtin_ingredient_id(p));
            assert(ings[q].id@ == builtin_ingredient_id(q));
        }
    }
    assert(distinct_drink_ids(drinks)) by {
        assert forall|p: int, q: int| 0 <= p < q < drinks.len() implies #[trigger] drinks[p].id@
            != #[trigger] drinks[q].id@ by {
            assert(drinks[p].id@ == builtin_drink_id(p));
            assert(drinks[q].id@ == builtin_drink_id(q));
        }
    }
    assert forall|k: int, j: int| 0 <= k < 30 && 0 <= j < builtin_required_len(k)
        implies 0 <= #[trigger] builtin_required_ing(k, j) < ings.len() by {}
    assert forall|k: int, p: int, q: int| #![trigger builtin_required_ing(k, p), builtin_required_ing(k, q)]
        0 <= k < 30 && 0 <= p < q < builtin_required_len(k)
        implies builtin_required_ing(k, p) != builtin_required_ing(k, q) by {}
    assert forall|k: int| 0 <= k < drinks.len() implies drink_data_wf(
        ings,
        #[trigger] drinks[k],
    ) by {
        assert(drinks[k].required@.len() == builtin_required_len(k));
        assert(builtin_required_len(k) > 0);
        assert(distinct_ids(drinks[k].required@)) by {
            assert forall|p: int, q: int| 0 <= p < q < drinks[k].required@.len() implies
                #[trigger] drinks[k].required@[p]@ != #[trigger] drinks[k].required@[q]@ by {
                assert(drinks[k].required@[p]@ == builtin_ingredient_id(
                    builtin_required_ing(k, p),
                ));
                assert(drinks[k].required@[q]@ == builtin_ingredient_id(
                    builtin_required_ing(k, q),
                ));
                assert(builtin_required_ing(k, p) != builtin_required_ing(k, q));
                assert(0 <= builtin_required_ing(k, p) < ings.len());
                assert(0 <= builtin_required_ing(k, q) < ings.len());
            }
        }
        assert forall|j: int| 0 <= j < drinks[k].required@.len() implies ingredients_have(
            ings,
            #[trigger] drinks[k].required@[j]@,
        ) by {
            let i = builtin_required_ing(k, j);
            assert(drinks[k].required@[j]@ == builtin_ingredient_id(i));
            assert(0 <= i < ings.len());
            assert(ings[i].id@ == builtin_ingredient_id(i));
        }
        assert forall|j: int| 0 <= j < drinks[k].recipe@.len() implies ingredients_have(
            ings,
            #[trigger] drinks[k].recipe@[j].ingredient_id@,
        ) by {
            let i = builtin_required_ing(k, j);
            assert(drinks[k].recipe@[j].ingredient_id@ == builtin_ingredient_id(i));
            assert(0 <= i < ings.len());
            assert(ings[i].id@ == builtin_ingredient_id(i));
        }
    }
}

/// Assemble the built-in catalog. The tables are proved well formed, so
/// construction always succeeds and the result is ready for the matcher.
pub fn build_catalog() -> (c: Catalog)
    ensures
        c.wf(),
        builtin_ingredients_ok(c.ingredients@),
        builtin_drinks_ok(c.drinks@),
{
    let ings = build_ingredients();
    let drinks = build_drinks();
    proof {
        lemma_builtin_tables_wf(ings@, drinks@);
    }
    Catalog::new(ings, drinks).unwrap()
}

} // verus!

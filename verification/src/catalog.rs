//! The catalog: the fixed, read-only universe of ingredients and drinks.
//!
//! A catalog is well formed (`Catalog::wf`) when ingredient ids are pairwise
//! distinct, drink ids are pairwise distinct, and every ingredient id that a
//! drink's required set or recipe mentions resolves in the ingredient table.
//! `Catalog::new` checks this invariant once, at construction; the matcher
//! relies on it thereafter.

use vstd::prelude::*;

verus! {

/// One ingredient: a stable identifier and a human-readable display name.
/// Identity is the id; two ingredients are the same ingredient iff their ids
/// have the same characters.
pub struct Ingredient {
    pub id: String,
    pub display_name: String,
}

impl Clone for Ingredient {
    fn clone(&self) -> (r: Self)
        ensures
            r == *self,
    {
        Ingredient { id: self.id.clone(), display_name: self.display_name.clone() }
    }
}

/// One line of a drink's recipe: an ingredient id and the amount to use.
pub struct RecipeEntry {
    pub ingredient_id: String,
    pub amount: String,
}

impl Clone for RecipeEntry {
    fn clone(&self) -> (r: Self)
        ensures
            r == *self,
    {
        RecipeEntry { ingredient_id: self.ingredient_id.clone(), amount: self.amount.clone() }
    }
}

/// A drink: identifier, display name, the non-empty set of required
/// ingredient ids (held as a duplicate-free vector), and the recipe amounts.
pub struct Drink {
    pub id: String,
    pub display_name: String,
    pub required: Vec<String>,
    pub recipe: Vec<RecipeEntry>,
}

/// Some element of `ids` has exactly the characters `id`.
pub open spec fn has_id(ids: Seq<String>, id: Seq<char>) -> bool {
    exists|i: int| 0 <= i < ids.len() && #[trigger] ids[i]@ == id
}

/// The elements of `ids` are pairwise distinct (as character sequences).
pub open spec fn distinct_ids(ids: Seq<String>) -> bool {
    forall|i: int, j: int|
        0 <= i < j < ids.len() ==> #[trigger] ids[i]@ != #[trigger] ids[j]@
}

/// Some ingredient of `ings` carries the id `id`.
pub open spec fn ingredients_have(ings: Seq<Ingredient>, id: Seq<char>) -> bool {
    exists|i: int| 0 <= i < ings.len() && #[trigger] ings[i].id@ == id
}

/// The ingredient ids of `ings` are pairwise distinct.
pub open spec fn distinct_ingredient_ids(ings: Seq<Ingredient>) -> bool {
    forall|i: int, j: int|
        0 <= i < j < ings.len() ==> #[trigger] ings[i].id@ != #[trigger] ings[j].id@
}

/// The drink ids of `drinks` are pairwise distinct.
pub open spec fn distinct_drink_ids(drinks: Seq<Drink>) -> bool {
    forall|i: int, j: int|
        0 <= i < j < drinks.len() ==> #[trigger] drinks[i].id@ != #[trigger] drinks[j].id@
}

/// A drink is well formed against an ingredient table: its required set is
/// non-empty and duplicate-free, and every id it mentions (required or
/// recipe) resolves in the table.
pub open spec fn drink_data_wf(ings: Seq<Ingredient>, d: Drink) -> bool {
    &&& d.required@.len() > 0
    &&& distinct_ids(d.required@)
    &&& forall|j: int|
        0 <= j < d.required@.len() ==> ingredients_have(ings, #[trigger] d.required@[j]@)
    &&& forall|j: int|
        0 <= j < d.recipe@.len() ==> ingredients_have(ings, #[trigger] d.recipe@[j].ingredient_id@)
}

/// The construction-time invariant of the whole catalog.
pub open spec fn catalog_data_wf(ings: Seq<Ingredient>, drinks: Seq<Drink>) -> bool {
    &&& distinct_ingredient_ids(ings)
    &&& distinct_drink_ids(drinks)
    &&& forall|k: int| 0 <= k < drinks.len() ==> drink_data_wf(ings, #[trigger] drinks[k])
}

/// The fixed universe of ingredients and drinks. Built once, read-only
/// thereafter. Drink order is significant only as the tie-break for sorting.
pub struct Catalog {
    pub ingredients: Vec<Ingredient>,
    pub drinks: Vec<Drink>,
}

impl Catalog {
    /// The construction-time invariant, as a predicate on the catalog.
    pub open spec fn wf(self) -> bool {
        catalog_data_wf(self.ingredients@, self.drinks@)
    }

    /// The ingredient table resolves `id`.
    pub open spec fn has_ingredient(self, id: Seq<char>) -> bool {
        ingredients_have(self.ingredients@, id)
    }

    /// The index of the ingredient that carries `id` (meaningful when
    /// `has_ingredient(id)`; unique when the catalog is well formed).
    pub open spec fn ingredient_index(self, id: Seq<char>) -> int {
        choose|i: int| 0 <= i < self.ingredients@.len() && self.ingredients@[i].id@ == id
    }

    /// The ingredient record that carries `id`.
    pub open spec fn ingredient_with_id(self, id: Seq<char>) -> Ingredient {
        self.ingredients@[self.ingredient_index(id)]
    }

    /// When the table resolves `id`, the record `ingredient_with_id`
    /// denotes really sits in the table and carries `id`.
    pub proof fn lemma_ingredient_with_id(self, x: Seq<char>)
        requires
            self.has_ingredient(x),
        ensures
            0 <= self.ingredient_index(x) < self.ingredients@.len(),
            self.ingredient_with_id(x).id@ == x,
    {
        let w = choose|i: int|
            0 <= i < self.ingredients@.len() && #[trigger] self.ingredients@[i].id@ == x;
        assert(self.ingredients@[w].id@ == x);
        assert(exists|i: int| 0 <= i < self.ingredients@.len() && self.ingredients@[i].id@ == x);
    }

    /// In a well-formed catalog, an ingredient record found at any index is
    /// the record `ingredient_with_id` denotes for its id.
    pub proof fn lemma_ingredient_index_unique(self, i: int)
        requires
            self.wf(),
            0 <= i < self.ingredients@.len(),
        ensures
            self.ingredient_index(self.ingredients@[i].id@) == i,
            self.ingredient_with_id(self.ingredients@[i].id@) == self.ingredients@[i],
    {
        let id = self.ingredients@[i].id@;
        assert(self.has_ingredient(id)) by {
            assert(self.ingredients@[i].id@ == id);
        }
        let ci = self.ingredient_index(id);
        assert(0 <= ci < self.ingredients@.len() && self.ingredients@[ci].id@ == id);
        if ci < i {
            assert(self.ingredients@[ci].id@ != self.ingredients@[i].id@);
        } else if i < ci {
            assert(self.ingredients@[i].id@ != self.ingredients@[ci].id@);
        }
    }

    /// Check the construction-time invariant on the given tables and build
    /// the catalog; refuse tables that break it (a corrupt catalog is a
    /// construction-time fault, never a query-time one).
    pub fn new(ingredients: Vec<Ingredient>, drinks: Vec<Drink>) -> (r: Option<Catalog>)
        ensures
            r.is_some() <==> catalog_data_wf(ingredients@, drinks@),
            r matches Some(c) ==> c.ingredients@ == ingredients@ && c.drinks@ == drinks@
                && c.wf(),
    {
        if !ingredient_ids_distinct(&ingredients) {
            return None;
        }
        if !drink_ids_distinct(&drinks) {
            return None;
        }
        let ndrinks = drinks.len();
        let mut k: usize = 0;
        while k < ndrinks
            invariant
                ndrinks == drinks@.len(),
                k <= ndrinks,
                forall|p: int| 0 <= p < k ==> drink_data_wf(ingredients@, #[trigger] drinks@[p]),
            decreases ndrinks - k,
        {
            if !drink_ok(&ingredients, &drinks[k]) {
                return None;
            }
            k += 1;
        }
        Some(Catalog { ingredients, drinks })
    }

    /// Look an ingredient up by id. Returns the full record when the id is
    /// known, and nothing when it is not.
    pub fn lookup_ingredient(&self, id: &String) -> (r: Option<Ingredient>)
        requires
            self.wf(),
        ensures
            r.is_some() <==> self.has_ingredient(id@),
            r matches Some(ing) ==> ing == self.ingredient_with_id(id@) && ing.id@ == id@,
    {
        let n = self.ingredients.len();
        let mut i: usize = 0;
        while i < n
            invariant
                self.wf(),
                n == self.ingredients@.len(),
                i <= n,
                forall|p: int| 0 <= p < i ==> #[trigger] self.ingredients@[p].id@ != id@,
            decreases n - i,
        {
            if self.ingredients[i].id == *id {
                proof {
                    self.lemma_ingredient_index_unique(i as int);
                }
                return Some(self.ingredients[i].clone());
            }
            i += 1;
        }
        None
    }
}

/// Linear scan of the ingredient table for `id`.
fn ingredients_contain(ings: &Vec<Ingredient>, id: &String) -> (b: bool)
    ensures
        b == ingredients_have(ings@, id@),
{
    let n = ings.len();
    let mut i: usize = 0;
    while i < n
        invariant
            n == ings@.len(),
            i <= n,
            forall|p: int| 0 <= p < i ==> #[trigger] ings@[p].id@ != id@,
        decreases n - i,
    {
        if ings[i].id == *id {
            return true;
        }
        i += 1;
    }
    false
}

/// Are the ingredient ids pairwise distinct?
fn ingredient_ids_distinct(ings: &Vec<Ingredient>) -> (b: bool)
    ensures
        b == distinct_ingredient_ids(ings@),
{
    let n = ings.len();
    let mut i: usize = 0;
    while i < n
        invariant
            n == ings@.len(),
            i <= n,
            forall|p: int, q: int| 0 <= p < q < i ==> #[trigger] ings@[p].id@ != #[trigger] ings@[q].id@,
        decreases n - i,
    {
        let mut j: usize = 0;
        while j < i
            invariant
                n == ings@.len(),
                i < n,
                j <= i,
                forall|p: int| 0 <= p < j ==> #[trigger] ings@[p].id@ != ings@[i as int].id@,
            decreases i - j,
        {
            if ings[j].id == ings[i].id {
                return false;
            }
            j += 1;
        }
        i += 1;
    }
    true
}

/// Are the drink ids pairwise distinct?
fn drink_ids_distinct(drinks: &Vec<Drink>) -> (b: bool)
    ensures
        b == distinct_drink_ids(drinks@),
{
    let n = drinks.len();
    let mut i: usize = 0;
    while i < n
        invariant
            n == drinks@.len(),
            i <= n,
            forall|p: int, q: int| 0 <= p < q < i ==> #[trigger] drinks@[p].id@ != #[trigger] drinks@[q].id@,
        decreases n - i,
    {
        let mut j: usize = 0;
        while j < i
            invariant
                n == drinks@.len(),
                i < n,
                j <= i,
                forall|p: int| 0 <= p < j ==> #[trigger] drinks@[p].id@ != drinks@[i as int].id@,
            decreases i - j,
        {
            if drinks[j].id == drinks[i].id {
                return false;
            }
            j += 1;
        }
        i += 1;
    }
    true
}

/// Are the strings of `ids` pairwise distinct?
fn string_ids_distinct(ids: &Vec<String>) -> (b: bool)
    ensures
        b == distinct_ids(ids@),
{
    let n = ids.len();
    let mut i: usize = 0;
    while i < n
        invariant
            n == ids@.len(),
            i <= n,
            forall|p: int, q: int| 0 <= p < q < i ==> #[trigger] ids@[p]@ != #[trigger] ids@[q]@,
        decreases n - i,
    {
        let mut j: usize = 0;
        while j < i
            invariant
                n == ids@.len(),
                i < n,
                j <= i,
                forall|p: int| 0 <= p < j ==> #[trigger] ids@[p]@ != ids@[i as int]@,
            decreases i - j,
        {
            if ids[j] == ids[i] {
                return false;
            }
            j += 1;
        }
        i += 1;
    }
    true
}

/// Is the drink well formed against the ingredient table?
fn drink_ok(ings: &Vec<Ingredient>, d: &Drink) -> (b: bool)
    ensures
        b == drink_data_wf(ings@, *d),
{
    let nreq = d.required.len();
    if nreq == 0 {
        return false;
    }
    if !string_ids_distinct(&d.required) {
        return false;
    }
    let mut j: usize = 0;
    while j < nreq
        invariant
            nreq == d.required@.len(),
            j <= nreq,
            forall|p: int| 0 <= p < j ==> ingredients_have(ings@, #[trigger] d.required@[p]@),
        decreases nreq - j,
    {
        if !ingredients_contain(ings, &d.required[j]) {
            return false;
        }
        j += 1;
    }
    let nrec = d.recipe.len();
    let mut j: usize = 0;
    while j < nrec
        invariant
            nreq == d.required@.len(),
            nreq > 0,
            distinct_ids(d.required@),
            forall|p: int| 0 <= p < nreq ==> ingredients_have(ings@, #[trigger] d.required@[p]@),
            nrec == d.recipe@.len(),
            j <= nrec,
            forall|p: int|
                0 <= p < j ==> ingredients_have(ings@, #[trigger] d.recipe@[p].ingredient_id@),
        decreases nrec - j,
    {
        if !ingredients_contain(ings, &d.recipe[j].ingredient_id) {
            return false;
        }
        j += 1;
    }
    true
}

} // verus!

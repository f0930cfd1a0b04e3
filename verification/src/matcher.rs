//! The matcher: the one domain algorithm.
//!
//! Given the catalog and the caller's set of available ingredient ids, every
//! drink that shares at least one required ingredient with that set becomes a
//! candidate; each candidate carries the full records of the ingredients it
//! still lacks; candidates are ordered by ascending number of missing
//! ingredients, ties keeping catalog order.
//!
//! The intended output is captured exactly by the spec functions below:
//! `entries` lists the candidates in catalog order as (missing count, catalog
//! index) pairs, `sort_entries` is a stable insertion sort by missing count,
//! and `match_post` ties the returned records to that order.

use vstd::prelude::*;

use crate::catalog::{Catalog, Ingredient, RecipeEntry, drink_data_wf, has_id};

verus! {

/// One ranked result: the drink, the full records of its missing
/// ingredients, its recipe, and the full records of all its required
/// ingredients. Built fresh per call; never stored.
pub struct DrinkResult {
    pub id: String,
    pub display_name: String,
    pub missing: Vec<Ingredient>,
    pub recipe: Vec<RecipeEntry>,
    pub ingredients: Vec<Ingredient>,
}

/// The caller-supplied id list, read as a set of character sequences.
pub open spec fn id_set_of(ids: Seq<String>) -> Set<Seq<char>> {
    Set::new(|x: Seq<char>| has_id(ids, x))
}

/// Drink `i` shares at least one required ingredient with `avail`.
pub open spec fn is_candidate(cat: Catalog, avail: Set<Seq<char>>, i: int) -> bool {
    exists|j: int|
        0 <= j < cat.drinks@[i].required@.len() && avail.contains(
            #[trigger] cat.drinks@[i].required@[j]@,
        )
}

/// The ids of `req` that `avail` lacks, in `req` order.
pub open spec fn missing_of(req: Seq<String>, avail: Set<Seq<char>>) -> Seq<Seq<char>>
    decreases req.len(),
{
    if req.len() == 0 {
        Seq::empty()
    } else {
        let rest = missing_of(req.drop_last(), avail);
        if avail.contains(req.last()@) {
            rest
        } else {
            rest.push(req.last()@)
        }
    }
}

/// How many required ingredients of drink `i` the available set lacks.
pub open spec fn missing_count(cat: Catalog, avail: Set<Seq<char>>, i: int) -> int {
    missing_of(cat.drinks@[i].required@, avail).len() as int
}

/// The candidates among the first `n` drinks, in catalog order, each as a
/// (missing count, catalog index) pair.
pub open spec fn entries_upto(cat: Catalog, avail: Set<Seq<char>>, n: int) -> Seq<(int, int)>
    decreases n,
{
    if n <= 0 {
        Seq::empty()
    } else if is_candidate(cat, avail, n - 1) {
        entries_upto(cat, avail, n - 1).push((missing_count(cat, avail, n - 1), n - 1))
    } else {
        entries_upto(cat, avail, n - 1)
    }
}

/// All candidates, in catalog order.
pub open spec fn entries(cat: Catalog, avail: Set<Seq<char>>) -> Seq<(int, int)> {
    entries_upto(cat, avail, cat.drinks@.len() as int)
}

/// Insert `e` into `s` after every entry whose key (missing count) is at
/// most `e`'s key: the stable insertion position.
pub open spec fn insert_entry(s: Seq<(int, int)>, e: (int, int)) -> Seq<(int, int)>
    decreases s.len(),
{
    if s.len() == 0 {
        seq![e]
    } else if e.0 < s[0].0 {
        seq![e] + s
    } else {
        seq![s[0]] + insert_entry(s.drop_first(), e)
    }
}

/// Insertion sort by key, taking elements left to right: stable and
/// ascending.
pub open spec fn sort_entries(s: Seq<(int, int)>) -> Seq<(int, int)>
    decreases s.len(),
{
    if s.len() == 0 {
        Seq::empty()
    } else {
        insert_entry(sort_entries(s.drop_last()), s.last())
    }
}

/// The output order: the candidates, stably sorted by missing count.
pub open spec fn ranked(cat: Catalog, avail: Set<Seq<char>>) -> Seq<(int, int)> {
    sort_entries(entries(cat, avail))
}

/// `r` is exactly the result record the matcher owes for drink `i`.
pub open spec fn result_for(cat: Catalog, avail: Set<Seq<char>>, r: DrinkResult, i: int) -> bool {
    let d = cat.drinks@[i];
    let miss = missing_of(d.required@, avail);
    &&& 0 <= i < cat.drinks@.len()
    &&& r.id == d.id
    &&& r.display_name == d.display_name
    &&& r.recipe@ == d.recipe@
    &&& r.missing@.len() == miss.len()
    &&& forall|m: int|
        0 <= m < miss.len() ==> #[trigger] r.missing@[m] == cat.ingredient_with_id(miss[m])
    &&& r.ingredients@.len() == d.required@.len()
    &&& forall|m: int|
        0 <= m < d.required@.len() ==> #[trigger] r.ingredients@[m] == cat.ingredient_with_id(
            d.required@[m]@,
        )
}

/// The matcher's full postcondition: the output lists, in the order
/// `ranked` gives, exactly the result record of each candidate drink.
pub open spec fn match_post(cat: Catalog, avail: Set<Seq<char>>, out: Seq<DrinkResult>) -> bool {
    let order = ranked(cat, avail);
    &&& out.len() == order.len()
    &&& forall|k: int|
        0 <= k < order.len() ==> result_for(cat, avail, #[trigger] out[k], order[k].1)
}

/// Linear scan: does `ids` hold a string with the characters of `s`?
fn ids_contain(ids: &Vec<String>, s: &String) -> (b: bool)
    ensures
        b == has_id(ids@, s@),
{
    let n = ids.len();
    let mut i: usize = 0;
    while i < n
        invariant
            n == ids@.len(),
            i <= n,
            forall|p: int| 0 <= p < i ==> #[trigger] ids@[p]@ != s@,
        decreases n - i,
    {
        if ids[i] == *s {
            return true;
        }
        i += 1;
    }
    false
}

/// Does the drink's required list share at least one id with `available`?
fn shares_ingredient(req: &Vec<String>, available: &Vec<String>) -> (b: bool)
    ensures
        b == exists|j: int|
            0 <= j < req@.len() && id_set_of(available@).contains(#[trigger] req@[j]@),
{
    let n = req.len();
    let mut j: usize = 0;
    while j < n
        invariant
            n == req@.len(),
            j <= n,
            forall|p: int| 0 <= p < j ==> !id_set_of(available@).contains(#[trigger] req@[p]@),
        decreases n - j,
    {
        if ids_contain(available, &req[j]) {
            return true;
        }
        j += 1;
    }
    false
}

/// Build the result record for candidate drink `i`: resolve the missing and
/// required ingredient ids to their full catalog records and copy the
/// recipe.
fn build_result(cat: &Catalog, i: usize, available: &Vec<String>) -> (r: DrinkResult)
    requires
        cat.wf(),
        i < cat.drinks@.len(),
    ensures
        result_for(*cat, id_set_of(available@), r, i as int),
{
    let ghost a = id_set_of(available@);
    let ghost req = cat.drinks@[i as int].required@;
    let nreq = cat.drinks[i].required.len();

    let mut missing: Vec<Ingredient> = Vec::new();
    let mut j: usize = 0;
    while j < nreq
        invariant
            cat.wf(),
            i < cat.drinks@.len(),
            a == id_set_of(available@),
            req == cat.drinks@[i as int].required@,
            nreq == req.len(),
            j <= nreq,
            missing@.len() == missing_of(req.take(j as int), a).len(),
            forall|m: int|
                0 <= m < missing@.len() ==> #[trigger] missing@[m] == cat.ingredient_with_id(
                    missing_of(req.take(j as int), a)[m],
                ),
        decreases nreq - j,
    {
        proof {
            assert(req.take(j + 1).drop_last() =~= req.take(j as int));
            assert(req.take(j + 1).last() == req[j as int]);
        }
        if !ids_contain(available, &cat.drinks[i].required[j]) {
            proof {
                assert(drink_data_wf(cat.ingredients@, cat.drinks@[i as int]));
                assert(cat.has_ingredient(req[j as int]@));
            }
            let looked = cat.lookup_ingredient(&cat.drinks[i].required[j]);
            match looked {
                Some(ing) => {
                    missing.push(ing);
                },
                None => {
                    proof {
                        assert(false);
                    }
                },
            }
        }
        j += 1;
    }
    proof {
        assert(req.take(nreq as int) =~= req);
    }

    let mut details: Vec<Ingredient> = Vec::new();
    let mut j: usize = 0;
    while j < nreq
        invariant
            cat.wf(),
            i < cat.drinks@.len(),
            req == cat.drinks@[i as int].required@,
            nreq == req.len(),
            j <= nreq,
            details@.len() == j,
            forall|m: int|
                0 <= m < j ==> #[trigger] details@[m] == cat.ingredient_with_id(req[m]@),
        decreases nreq - j,
    {
        proof {
            assert(drink_data_wf(cat.ingredients@, cat.drinks@[i as int]));
            assert(cat.has_ingredient(req[j as int]@));
        }
        let looked = cat.lookup_ingredient(&cat.drinks[i].required[j]);
        match looked {
            Some(ing) => {
                details.push(ing);
            },
            None => {
                proof {
                    assert(false);
                }
            },
        }
        j += 1;
    }

    let nrec = cat.drinks[i].recipe.len();
    let mut recipe: Vec<RecipeEntry> = Vec::new();
    let mut j: usize = 0;
    while j < nrec
        invariant
            i < cat.drinks@.len(),
            nrec == cat.drinks@[i as int].recipe@.len(),
            j <= nrec,
            recipe@.len() == j,
            forall|m: int|
                0 <= m < j ==> #[trigger] recipe@[m] == cat.drinks@[i as int].recipe@[m],
        decreases nrec - j,
    {
        recipe.push(cat.drinks[i].recipe[j].clone());
        j += 1;
    }
    proof {
        assert(recipe@ =~= cat.drinks@[i as int].recipe@);
    }

    DrinkResult {
        id: cat.drinks[i].id.clone(),
        display_name: cat.drinks[i].display_name.clone(),
        missing,
        recipe,
        ingredients: details,
    }
}

/// `insert_entry` places `e` exactly at the first position whose key
/// exceeds `e`'s key.
proof fn lemma_insert_entry_split(s: Seq<(int, int)>, e: (int, int), j: int)
    requires
        0 <= j <= s.len(),
        forall|q: int| 0 <= q < j ==> #[trigger] s[q].0 <= e.0,
        j < s.len() ==> e.0 < s[j].0,
    ensures
        insert_entry(s, e) == s.take(j).push(e) + s.skip(j),
    decreases s.len(),
{
    if j == 0 {
        if s.len() == 0 {
            assert(insert_entry(s, e) =~= s.take(0).push(e) + s.skip(0));
        } else {
            assert(e.0 < s[0].0);
            assert(insert_entry(s, e) =~= s.take(0).push(e) + s.skip(0));
        }
    } else {
        assert(s[0].0 <= e.0);
        lemma_insert_entry_split(s.drop_first(), e, j - 1);
        assert(s.drop_first().take(j - 1) =~= s.take(j).drop_first());
        assert(insert_entry(s, e) =~= s.take(j).push(e) + s.skip(j));
    }
}

/// The stable insertion position: past every entry with a missing count of
/// at most `key`, before the first larger one.
fn insert_position(out: &Vec<DrinkResult>, key: usize) -> (p: usize)
    ensures
        p <= out@.len(),
        forall|q: int| 0 <= q < p ==> #[trigger] out@[q].missing@.len() <= key,
        p < out@.len() ==> key < out@[p as int].missing@.len(),
{
    let n = out.len();
    let mut p: usize = 0;
    while p < n
        invariant
            n == out@.len(),
            p <= n,
            forall|q: int| 0 <= q < p ==> #[trigger] out@[q].missing@.len() <= key,
        decreases n - p,
    {
        if out[p].missing.len() <= key {
            p += 1;
        } else {
            return p;
        }
    }
    p
}

/// Rank the drinks a caller could aim for, given the ingredient ids in
/// `available` (read as a set; unknown ids are ignored).
///
/// A drink appears iff it shares at least one required ingredient with
/// `available`. Each result resolves the drink's missing ingredients (its
/// required ids not in `available`) to full catalog records. Results are
/// ordered by ascending missing count; drinks with equal counts keep their
/// catalog order.
pub fn match_drinks(catalog: &Catalog, available: &Vec<String>) -> (out: Vec<DrinkResult>)
    requires
        catalog.wf(),
    ensures
        match_post(*catalog, id_set_of(available@), out@),
{
    let ghost a = id_set_of(available@);
    let ndrinks = catalog.drinks.len();

    let mut cands: Vec<DrinkResult> = Vec::new();
    let ghost mut ents: Seq<(int, int)> = Seq::empty();
    let mut i: usize = 0;
    while i < ndrinks
        invariant
            catalog.wf(),
            a == id_set_of(available@),
            ndrinks == catalog.drinks@.len(),
            i <= ndrinks,
            ents == entries_upto(*catalog, a, i as int),
            cands@.len() == ents.len(),
            forall|k: int|
                0 <= k < ents.len() ==> result_for(*catalog, a, #[trigger] cands@[k], ents[k].1),
            forall|k: int| 0 <= k < ents.len() ==> #[trigger] ents[k].0 == cands@[k].missing@.len(),
        decreases ndrinks - i,
    {
        if shares_ingredient(&catalog.drinks[i].required, available) {
            proof {
                assert(is_candidate(*catalog, a, i as int));
            }
            let r = build_result(catalog, i, available);
            proof {
                ents = ents.push((missing_count(*catalog, a, i as int), i as int));
            }
            cands.push(r);
        } else {
            proof {
                assert(!is_candidate(*catalog, a, i as int));
            }
        }
        i += 1;
    }

    let mut out: Vec<DrinkResult> = Vec::new();
    let ghost mut done: int = 0;
    let ghost mut gout: Seq<(int, int)> = Seq::empty();
    while cands.len() > 0
        invariant
            catalog.wf(),
            a == id_set_of(available@),
            ents == entries(*catalog, a),
            0 <= done <= ents.len(),
            cands@.len() == ents.len() - done,
            forall|k: int|
                0 <= k < cands@.len() ==> result_for(
                    *catalog,
                    a,
                    #[trigger] cands@[k],
                    ents[done + k].1,
                ),
            forall|k: int|
                0 <= k < cands@.len() ==> #[trigger] ents[done + k].0 == cands@[k].missing@.len(),
            gout == sort_entries(ents.take(done)),
            out@.len() == gout.len(),
            forall|k: int|
                0 <= k < gout.len() ==> result_for(*catalog, a, #[trigger] out@[k], gout[k].1),
            forall|k: int| 0 <= k < gout.len() ==> #[trigger] gout[k].0 == out@[k].missing@.len(),
        decreases cands@.len(),
    {
        let ghost e = ents[done];
        let r = cands.remove(0);
        let key = r.missing.len();
        let p = insert_position(&out, key);
        proof {
            lemma_insert_entry_split(gout, e, p as int);
            assert(ents.take(done + 1).drop_last() =~= ents.take(done));
            assert(ents.take(done + 1).last() == e);
            assert(gout.take(p as int).push(e) + gout.skip(p as int) =~= gout.insert(p as int, e));
            gout = insert_entry(gout, e);
            done = done + 1;
        }
        out.insert(p, r);
    }
    proof {
        assert(ents.take(done) =~= ents);
    }
    out
}

} // verus!

//! The library's laws: proved properties of the matcher.
//!
//! Each public proof function here states one guarantee of `match_drinks`
//! over its postcondition `match_post`: which drinks appear, what the
//! missing sets are, how the output is ordered, that the computation is
//! deterministic, that unknown ingredient ids are ignored, and that a fully
//! stocked drink appears with nothing missing.

use vstd::prelude::*;

use crate::catalog::{Catalog, Drink, distinct_drink_ids, drink_data_wf, has_id, ingredients_have};
use crate::matcher::{
    DrinkResult, entries, entries_upto, insert_entry, is_candidate, match_post, missing_count,
    missing_of, ranked, result_for, sort_entries,
};

verus! {

/// Keys (missing counts) are non-decreasing along `s`.
pub open spec fn sorted_keys(s: Seq<(int, int)>) -> bool {
    forall|p: int, q: int| #![trigger s[p], s[q]] 0 <= p < q < s.len() ==> s[p].0 <= s[q].0
}

/// Entries with equal keys keep ascending catalog indices: the stability
/// contract of the sort.
pub open spec fn stable_keys(s: Seq<(int, int)>) -> bool {
    forall|p: int, q: int| #![trigger s[p], s[q]]
        0 <= p < q < s.len() && s[p].0 == s[q].0 ==> s[p].1 < s[q].1
}

/// Catalog indices are strictly increasing along `s`.
pub open spec fn indices_increasing(s: Seq<(int, int)>) -> bool {
    forall|p: int, q: int| #![trigger s[p], s[q]] 0 <= p < q < s.len() ==> s[p].1 < s[q].1
}

/// Every catalog index in `s` lies below `b`.
pub open spec fn indices_below(s: Seq<(int, int)>, b: int) -> bool {
    forall|p: int| 0 <= p < s.len() ==> (#[trigger] s[p]).1 < b
}

/// `e` is a faithful entry: a candidate drink's index paired with its
/// missing count.
pub open spec fn entry_ok(cat: Catalog, avail: Set<Seq<char>>, e: (int, int)) -> bool {
    &&& 0 <= e.1 < cat.drinks@.len()
    &&& is_candidate(cat, avail, e.1)
    &&& e.0 == missing_count(cat, avail, e.1)
}

/// Every entry of `s` is faithful.
pub open spec fn entries_ok(cat: Catalog, avail: Set<Seq<char>>, s: Seq<(int, int)>) -> bool {
    forall|p: int| 0 <= p < s.len() ==> entry_ok(cat, avail, #[trigger] s[p])
}

/// What `insert_entry` yields: one entry longer, the elements of `s` plus
/// `e`, and — when `s` is sorted, stable, and `e`'s index exceeds all of
/// `s`'s — sorted and stable again.
proof fn lemma_insert_entry_props(s: Seq<(int, int)>, e: (int, int))
    requires
        sorted_keys(s),
        stable_keys(s),
        indices_below(s, e.1),
    ensures
        insert_entry(s, e).len() == s.len() + 1,
        forall|p: int|
            0 <= p < s.len() + 1 ==> (#[trigger] insert_entry(s, e)[p] == e || s.contains(
                insert_entry(s, e)[p],
            )),
        insert_entry(s, e).contains(e),
        forall|x: (int, int)| s.contains(x) ==> insert_entry(s, e).contains(x),
        sorted_keys(insert_entry(s, e)),
        stable_keys(insert_entry(s, e)),
    decreases s.len(),
{
    let r = insert_entry(s, e);
    if s.len() == 0 {
        assert(r == seq![e]);
        assert(r[0] == e);
    } else if e.0 < s[0].0 {
        assert(r == seq![e] + s);
        assert(r[0] == e);
        assert forall|p: int| 0 <= p < s.len() + 1 implies (#[trigger] r[p] == e || s.contains(
            r[p],
        )) by {
            if p > 0 {
                assert(r[p] == s[p - 1]);
            }
        }
        assert forall|x: (int, int)| s.contains(x) implies r.contains(x) by {
            let q = choose|q: int| 0 <= q < s.len() && s[q] == x;
            assert(r[q + 1] == x);
        }
        assert forall|p: int, q: int| #![trigger r[p], r[q]] 0 <= p < q < r.len() implies r[p].0
            <= r[q].0 by {
            if p == 0 {
                assert(r[q] == s[q - 1]);
                if q > 1 {
                    assert(s[0].0 <= s[q - 1].0);
                }
            } else {
                assert(r[p] == s[p - 1] && r[q] == s[q - 1]);
            }
        }
        assert forall|p: int, q: int| #![trigger r[p], r[q]]
            0 <= p < q < r.len() && r[p].0 == r[q].0 implies r[p].1 < r[q].1 by {
            if p == 0 {
                assert(r[q] == s[q - 1]);
                if q == 1 {
                    assert(false);
                } else {
                    assert(s[0].0 <= s[q - 1].0);
                    assert(false);
                }
            } else {
                assert(r[p] == s[p - 1] && r[q] == s[q - 1]);
            }
        }
    } else {
        let t = s.drop_first();
        let inner = insert_entry(t, e);
        assert(r == seq![s[0]] + inner);
        assert(sorted_keys(t) && stable_keys(t) && indices_below(t, e.1)) by {
            assert(forall|p: int| 0 <= p < t.len() ==> #[trigger] t[p] == s[p + 1]);
        }
        lemma_insert_entry_props(t, e);
        assert(r[0] == s[0]);
        assert(s.contains(s[0]));
        assert forall|p: int| 0 <= p < s.len() + 1 implies (#[trigger] r[p] == e || s.contains(
            r[p],
        )) by {
            if p > 0 {
                assert(r[p] == inner[p - 1]);
                if inner[p - 1] != e {
                    assert(t.contains(inner[p - 1]));
                    let q = choose|q: int| 0 <= q < t.len() && t[q] == inner[p - 1];
                    assert(s[q + 1] == t[q]);
                    assert(s.contains(s[q + 1]));
                }
            }
        }
        assert(r.contains(e)) by {
            let p = choose|p: int| 0 <= p < inner.len() && inner[p] == e;
            assert(r[p + 1] == e);
        }
        assert forall|x: (int, int)| s.contains(x) implies r.contains(x) by {
            let q = choose|q: int| 0 <= q < s.len() && s[q] == x;
            if q == 0 {
                assert(r[0] == x);
            } else {
                assert(t[q - 1] == x);
                assert(t.contains(x));
                assert(inner.contains(x));
                let p = choose|p: int| 0 <= p < inner.len() && inner[p] == x;
                assert(r[p + 1] == x);
            }
        }
        // the head key is at most every key that follows it
        assert forall|p: int| 0 <= p < inner.len() implies s[0].0 <= (#[trigger] inner[p]).0
            && (s[0].0 == inner[p].0 ==> s[0].1 < inner[p].1) by {
            if inner[p] == e {
                assert(s[0].0 <= e.0);
                assert(indices_below(s, e.1));
                assert(s[0].1 < e.1);
            } else {
                assert(t.contains(inner[p]));
                let q = choose|q: int| 0 <= q < t.len() && t[q] == inner[p];
                assert(t[q] == s[q + 1]);
                assert(s[0].0 <= s[q + 1].0);
                assert(s[0].0 == s[q + 1].0 ==> s[0].1 < s[q + 1].1);
            }
        }
        assert forall|p: int, q: int| #![trigger r[p], r[q]] 0 <= p < q < r.len() implies r[p].0
            <= r[q].0 by {
            if p > 0 {
                assert(r[p] == inner[p - 1] && r[q] == inner[q - 1]);
            } else {
                assert(r[q] == inner[q - 1]);
            }
        }
        assert forall|p: int, q: int| #![trigger r[p], r[q]]
            0 <= p < q < r.len() && r[p].0 == r[q].0 implies r[p].1 < r[q].1 by {
            if p > 0 {
                assert(r[p] == inner[p - 1] && r[q] == inner[q - 1]);
            } else {
                assert(r[q] == inner[q - 1]);
            }
        }
    }
}

/// What `sort_entries` yields on a catalog-ordered input: same length, same
/// elements, keys ascending, ties in catalog order.
proof fn lemma_sort_entries_props(s: Seq<(int, int)>)
    requires
        indices_increasing(s),
    ensures
        sort_entries(s).len() == s.len(),
        forall|p: int|
            0 <= p < s.len() ==> s.contains(#[trigger] sort_entries(s)[p]),
        forall|x: (int, int)| s.contains(x) ==> sort_entries(s).contains(x),
        sorted_keys(sort_entries(s)),
        stable_keys(sort_entries(s)),
    decreases s.len(),
{
    if s.len() > 0 {
        let t = s.drop_last();
        let st = sort_entries(t);
        let e = s.last();
        assert(indices_increasing(t)) by {
            assert(forall|p: int| 0 <= p < t.len() ==> #[trigger] t[p] == s[p]);
        }
        lemma_sort_entries_props(t);
        assert(indices_below(st, e.1)) by {
            assert forall|p: int| 0 <= p < st.len() implies (#[trigger] st[p]).1 < e.1 by {
                assert(t.contains(st[p]));
                let q = choose|q: int| 0 <= q < t.len() && t[q] == st[p];
                assert(t[q] == s[q]);
                assert(s[q].1 < s[s.len() - 1].1);
            }
        }
        lemma_insert_entry_props(st, e);
        let r = sort_entries(s);
        assert(r == insert_entry(st, e));
        assert forall|p: int| 0 <= p < s.len() implies s.contains(#[trigger] r[p]) by {
            if r[p] == e {
                assert(s[s.len() - 1] == e);
                assert(s.contains(e));
            } else {
                assert(st.contains(r[p]));
                let q = choose|q: int| 0 <= q < st.len() && st[q] == r[p];
                assert(t.contains(st[q]));
                let w = choose|w: int| 0 <= w < t.len() && t[w] == st[q];
                assert(s[w] == t[w]);
                assert(s.contains(s[w]));
            }
        }
        assert forall|x: (int, int)| s.contains(x) implies r.contains(x) by {
            let q = choose|q: int| 0 <= q < s.len() && s[q] == x;
            if q == s.len() - 1 {
                assert(r.contains(e));
            } else {
                assert(t[q] == x);
                assert(t.contains(x));
                assert(st.contains(x));
                assert(r.contains(x));
            }
        }
    }
}

/// What `entries_upto` yields: faithful entries for exactly the candidate
/// drinks below `n`, in catalog order.
proof fn lemma_entries_upto_props(cat: Catalog, avail: Set<Seq<char>>, n: int)
    requires
        0 <= n <= cat.drinks@.len(),
    ensures
        entries_ok(cat, avail, entries_upto(cat, avail, n)),
        indices_below(entries_upto(cat, avail, n), n),
        indices_increasing(entries_upto(cat, avail, n)),
        forall|i: int|
            0 <= i < n && is_candidate(cat, avail, i) ==> entries_upto(cat, avail, n).contains(
                (missing_count(cat, avail, i), i),
            ),
    decreases n,
{
    if n > 0 {
        lemma_entries_upto_props(cat, avail, n - 1);
        let prev = entries_upto(cat, avail, n - 1);
        let cur = entries_upto(cat, avail, n);
        if is_candidate(cat, avail, n - 1) {
            assert(cur == prev.push((missing_count(cat, avail, n - 1), n - 1)));
            assert(forall|p: int| 0 <= p < prev.len() ==> #[trigger] cur[p] == prev[p]);
            assert(cur[prev.len() as int] == (missing_count(cat, avail, n - 1), n - 1));
            assert forall|i: int|
                0 <= i < n && is_candidate(cat, avail, i) implies cur.contains(
                (missing_count(cat, avail, i), i),
            ) by {
                if i == n - 1 {
                    assert(cur[prev.len() as int] == (missing_count(cat, avail, i), i));
                } else {
                    assert(prev.contains((missing_count(cat, avail, i), i)));
                    let q = choose|q: int|
                        0 <= q < prev.len() && prev[q] == (missing_count(cat, avail, i), i);
                    assert(cur[q] == (missing_count(cat, avail, i), i));
                }
            }
        } else {
            assert(cur == prev);
        }
    }
}

/// What the output order `ranked` yields: one faithful entry per candidate,
/// keys ascending, ties in catalog order.
pub proof fn lemma_ranked_props(cat: Catalog, avail: Set<Seq<char>>)
    ensures
        ranked(cat, avail).len() == entries(cat, avail).len(),
        entries_ok(cat, avail, ranked(cat, avail)),
        sorted_keys(ranked(cat, avail)),
        stable_keys(ranked(cat, avail)),
        forall|i: int|
            0 <= i < cat.drinks@.len() && is_candidate(cat, avail, i) ==> ranked(
                cat,
                avail,
            ).contains((missing_count(cat, avail, i), i)),
{
    let n = cat.drinks@.len() as int;
    lemma_entries_upto_props(cat, avail, n);
    let ents = entries(cat, avail);
    lemma_sort_entries_props(ents);
    let r = ranked(cat, avail);
    assert forall|p: int| 0 <= p < r.len() implies entry_ok(cat, avail, #[trigger] r[p]) by {
        assert(ents.contains(r[p]));
        let q = choose|q: int| 0 <= q < ents.len() && ents[q] == r[p];
        assert(entry_ok(cat, avail, ents[q]));
    }
}

/// The required ingredient ids of a drink, as a set.
pub open spec fn required_id_set(d: Drink) -> Set<Seq<char>> {
    Set::new(|x: Seq<char>| has_id(d.required@, x))
}

/// The ids of the ingredients a result reports missing, as a set.
pub open spec fn result_missing_id_set(r: DrinkResult) -> Set<Seq<char>> {
    Set::new(
        |x: Seq<char>|
            exists|m: int| 0 <= m < r.missing@.len() && #[trigger] r.missing@[m].id@ == x,
    )
}

/// Some drink's required set mentions `x`.
pub open spec fn some_drink_requires(cat: Catalog, x: Seq<char>) -> bool {
    exists|i: int, j: int|
        0 <= i < cat.drinks@.len() && 0 <= j < cat.drinks@[i].required@.len()
            && #[trigger] cat.drinks@[i].required@[j]@ == x
}

/// Two results that agree on everything observable: the drink, the missing
/// records, the recipe, and the required-ingredient records.
pub open spec fn same_result(r1: DrinkResult, r2: DrinkResult) -> bool {
    &&& r1.id == r2.id
    &&& r1.display_name == r2.display_name
    &&& r1.missing@ == r2.missing@
    &&& r1.recipe@ == r2.recipe@
    &&& r1.ingredients@ == r2.ingredients@
}

/// What `missing_of` holds: only required ids the available set lacks, and
/// all of them.
proof fn lemma_missing_of_props(req: Seq<String>, avail: Set<Seq<char>>)
    ensures
        missing_of(req, avail).len() <= req.len(),
        forall|m: int|
            0 <= m < missing_of(req, avail).len() ==> has_id(
                req,
                #[trigger] missing_of(req, avail)[m],
            ) && !avail.contains(missing_of(req, avail)[m]),
        forall|x: Seq<char>|
            has_id(req, x) && !avail.contains(x) ==> missing_of(req, avail).contains(x),
    decreases req.len(),
{
    if req.len() > 0 {
        let t = req.drop_last();
        lemma_missing_of_props(t, avail);
        let mt = missing_of(t, avail);
        let m = missing_of(req, avail);
        assert(forall|p: int| 0 <= p < t.len() ==> #[trigger] t[p] == req[p]);
        assert forall|p: int| 0 <= p < m.len() implies has_id(req, #[trigger] m[p])
            && !avail.contains(m[p]) by {
            if p < mt.len() {
                assert(m[p] == mt[p]);
                assert(has_id(t, mt[p]));
                let j = choose|j: int| 0 <= j < t.len() && #[trigger] t[j]@ == mt[p];
                assert(req[j]@ == mt[p]);
            } else {
                assert(m[p] == req.last()@);
                assert(req[req.len() - 1]@ == m[p]);
            }
        }
        assert forall|x: Seq<char>| has_id(req, x) && !avail.contains(x) implies m.contains(x) by {
            let j = choose|j: int| 0 <= j < req.len() && #[trigger] req[j]@ == x;
            if j == req.len() - 1 {
                assert(m[mt.len() as int] == x);
            } else {
                assert(t[j]@ == x);
                assert(has_id(t, x));
                assert(mt.contains(x));
                let p = choose|p: int| 0 <= p < mt.len() && mt[p] == x;
                assert(m[p] == x);
            }
        }
    }
}

/// Two available sets that agree on every id of `req` miss the same ids.
proof fn lemma_missing_of_agree(req: Seq<String>, a1: Set<Seq<char>>, a2: Set<Seq<char>>)
    requires
        forall|j: int|
            0 <= j < req.len() ==> (a1.contains(#[trigger] req[j]@) <==> a2.contains(req[j]@)),
    ensures
        missing_of(req, a1) == missing_of(req, a2),
    decreases req.len(),
{
    if req.len() > 0 {
        let t = req.drop_last();
        assert(forall|p: int| 0 <= p < t.len() ==> #[trigger] t[p] == req[p]);
        lemma_missing_of_agree(t, a1, a2);
        assert(a1.contains(req[req.len() - 1]@) <==> a2.contains(req[req.len() - 1]@));
    }
}

/// When the available set holds every required id, nothing is missing.
proof fn lemma_missing_of_all_present(req: Seq<String>, avail: Set<Seq<char>>)
    requires
        forall|j: int| 0 <= j < req.len() ==> avail.contains(#[trigger] req[j]@),
    ensures
        missing_of(req, avail).len() == 0,
    decreases req.len(),
{
    if req.len() > 0 {
        let t = req.drop_last();
        assert(forall|p: int| 0 <= p < t.len() ==> #[trigger] t[p] == req[p]);
        lemma_missing_of_all_present(t, avail);
        assert(avail.contains(req[req.len() - 1]@));
    }
}

/// Two available sets under which every drink has the same candidacy and
/// missing count produce the same entry list.
proof fn lemma_entries_agree(cat: Catalog, a1: Set<Seq<char>>, a2: Set<Seq<char>>, n: int)
    requires
        0 <= n <= cat.drinks@.len(),
        forall|i: int|
            0 <= i < n ==> is_candidate(cat, a1, i) == is_candidate(cat, a2, i),
        forall|i: int|
            0 <= i < n ==> missing_count(cat, a1, i) == missing_count(cat, a2, i),
    ensures
        entries_upto(cat, a1, n) == entries_upto(cat, a2, n),
    decreases n,
{
    if n > 0 {
        lemma_entries_agree(cat, a1, a2, n - 1);
    }
}

/// Filtering: a drink appears in the output iff its required set shares at
/// least one ingredient with the available set.
pub proof fn lemma_filtering(cat: Catalog, avail: Set<Seq<char>>, out: Seq<DrinkResult>, i: int)
    requires
        cat.wf(),
        match_post(cat, avail, out),
        0 <= i < cat.drinks@.len(),
    ensures
        (exists|k: int| 0 <= k < out.len() && #[trigger] out[k].id@ == cat.drinks@[i].id@)
            <==> is_candidate(cat, avail, i),
{
    lemma_ranked_props(cat, avail);
    let order = ranked(cat, avail);
    if is_candidate(cat, avail, i) {
        assert(order.contains((missing_count(cat, avail, i), i)));
        let k = choose|k: int|
            0 <= k < order.len() && order[k] == (missing_count(cat, avail, i), i);
        assert(result_for(cat, avail, out[k], i));
        assert(out[k].id@ == cat.drinks@[i].id@);
    }
    if exists|k: int| 0 <= k < out.len() && #[trigger] out[k].id@ == cat.drinks@[i].id@ {
        let k = choose|k: int| 0 <= k < out.len() && #[trigger] out[k].id@ == cat.drinks@[i].id@;
        let j = order[k].1;
        assert(result_for(cat, avail, out[k], j));
        assert(entry_ok(cat, avail, order[k]));
        assert(out[k].id@ == cat.drinks@[j].id@);
        assert(distinct_drink_ids(cat.drinks@));
        if j < i {
            assert(cat.drinks@[j].id@ != cat.drinks@[i].id@);
        } else if i < j {
            assert(cat.drinks@[i].id@ != cat.drinks@[j].id@);
        }
        assert(is_candidate(cat, avail, i));
    }
}

/// Missing-set correctness: each result's missing set is exactly its
/// drink's required set minus the available set, and is disjoint from the
/// available set.
pub proof fn lemma_missing_sets(cat: Catalog, avail: Set<Seq<char>>, out: Seq<DrinkResult>, k: int)
    requires
        cat.wf(),
        match_post(cat, avail, out),
        0 <= k < out.len(),
    ensures
        result_missing_id_set(out[k]) == required_id_set(
            cat.drinks@[ranked(cat, avail)[k].1],
        ).difference(avail),
        result_missing_id_set(out[k]).intersect(avail) == Set::<Seq<char>>::empty(),
{
    lemma_ranked_props(cat, avail);
    let order = ranked(cat, avail);
    assert(entry_ok(cat, avail, order[k]));
    let i = order[k].1;
    let d = cat.drinks@[i];
    assert(result_for(cat, avail, out[k], i));
    assert(drink_data_wf(cat.ingredients@, d));
    let miss = missing_of(d.required@, avail);
    lemma_missing_of_props(d.required@, avail);
    assert forall|m: int| 0 <= m < out[k].missing@.len() implies #[trigger] out[k].missing@[m].id@
        == miss[m] by {
        assert(out[k].missing@[m] == cat.ingredient_with_id(miss[m]));
        assert(has_id(d.required@, miss[m]));
        assert(ingredients_have(cat.ingredients@, miss[m])) by {
            let j = choose|j: int| 0 <= j < d.required@.len() && #[trigger] d.required@[j]@ == miss[m];
            assert(ingredients_have(cat.ingredients@, d.required@[j]@));
        }
        cat.lemma_ingredient_with_id(miss[m]);
    }
    assert(result_missing_id_set(out[k]) =~= required_id_set(d).difference(avail)) by {
        assert forall|x: Seq<char>| result_missing_id_set(out[k]).contains(x) implies
            required_id_set(d).difference(avail).contains(x) by {
            let m = choose|m: int|
                0 <= m < out[k].missing@.len() && #[trigger] out[k].missing@[m].id@ == x;
            assert(x == miss[m]);
            assert(has_id(d.required@, miss[m]) && !avail.contains(miss[m]));
        }
        assert forall|x: Seq<char>| required_id_set(d).difference(avail).contains(x) implies
            result_missing_id_set(out[k]).contains(x) by {
            assert(has_id(d.required@, x) && !avail.contains(x));
            assert(miss.contains(x));
            let m = choose|m: int| 0 <= m < miss.len() && miss[m] == x;
            assert(out[k].missing@[m].id@ == miss[m]);
        }
    }
    assert(result_missing_id_set(out[k]).intersect(avail) =~= Set::<Seq<char>>::empty()) by {
        assert forall|x: Seq<char>| !(result_missing_id_set(out[k]).intersect(avail).contains(
            x,
        )) by {
            if result_missing_id_set(out[k]).contains(x) {
                assert(required_id_set(d).difference(avail).contains(x));
            }
        }
    }
}

/// Sort order: missing counts are non-decreasing along the output, and
/// results with equal counts keep their drinks' catalog order.
pub proof fn lemma_sort_order(cat: Catalog, avail: Set<Seq<char>>, out: Seq<DrinkResult>)
    requires
        match_post(cat, avail, out),
    ensures
        forall|p: int, q: int| #![trigger out[p], out[q]]
            0 <= p < q < out.len() ==> out[p].missing@.len() <= out[q].missing@.len(),
        forall|p: int, q: int| #![trigger out[p], out[q]]
            0 <= p < q < out.len() && out[p].missing@.len() == out[q].missing@.len() ==> ranked(
                cat,
                avail,
            )[p].1 < ranked(cat, avail)[q].1,
{
    lemma_ranked_props(cat, avail);
    let order = ranked(cat, avail);
    assert forall|k: int| 0 <= k < out.len() implies (#[trigger] out[k]).missing@.len()
        == order[k].0 by {
        assert(result_for(cat, avail, out[k], order[k].1));
        assert(entry_ok(cat, avail, order[k]));
    }
}

/// Idempotence: any two outputs the postcondition admits for the same
/// catalog and available set are identical, entry by entry.
pub proof fn lemma_deterministic(
    cat: Catalog,
    avail: Set<Seq<char>>,
    out1: Seq<DrinkResult>,
    out2: Seq<DrinkResult>,
)
    requires
        match_post(cat, avail, out1),
        match_post(cat, avail, out2),
    ensures
        out1.len() == out2.len(),
        forall|k: int| 0 <= k < out1.len() ==> same_result(#[trigger] out1[k], out2[k]),
{
    let order = ranked(cat, avail);
    assert forall|k: int| 0 <= k < out1.len() implies same_result(
        #[trigger] out1[k],
        out2[k],
    ) by {
        let i = order[k].1;
        assert(result_for(cat, avail, out1[k], i));
        assert(result_for(cat, avail, out2[k], i));
        let d = cat.drinks@[i];
        let miss = missing_of(d.required@, avail);
        assert(out1[k].missing@ =~= out2[k].missing@) by {
            assert forall|m: int| 0 <= m < miss.len() implies #[trigger] out1[k].missing@[m]
                == out2[k].missing@[m] by {
                assert(out1[k].missing@[m] == cat.ingredient_with_id(miss[m]));
                assert(out2[k].missing@[m] == cat.ingredient_with_id(miss[m]));
            }
        }
        assert(out1[k].ingredients@ =~= out2[k].ingredients@) by {
            assert forall|m: int| 0 <= m < d.required@.len() implies #[trigger] out1[k].ingredients@[m]
                == out2[k].ingredients@[m] by {
                assert(out1[k].ingredients@[m] == cat.ingredient_with_id(d.required@[m]@));
                assert(out2[k].ingredients@[m] == cat.ingredient_with_id(d.required@[m]@));
            }
        }
    }
}

/// Unknown-ingredient invariance: ids that no drink requires may be added
/// to the available set without changing the output or its order.
pub proof fn lemma_unknown_ids_ignored(
    cat: Catalog,
    avail: Set<Seq<char>>,
    extra: Set<Seq<char>>,
    out: Seq<DrinkResult>,
)
    requires
        forall|x: Seq<char>| extra.contains(x) ==> !some_drink_requires(cat, x),
        match_post(cat, avail, out),
    ensures
        ranked(cat, avail.union(extra)) == ranked(cat, avail),
        match_post(cat, avail.union(extra), out),
{
    let a2 = avail.union(extra);
    assert forall|i: int, j: int|
        0 <= i < cat.drinks@.len() && 0 <= j < cat.drinks@[i].required@.len() implies (
    avail.contains(#[trigger] cat.drinks@[i].required@[j]@) <==> a2.contains(
        cat.drinks@[i].required@[j]@,
    )) by {
        let x = cat.drinks@[i].required@[j]@;
        if extra.contains(x) {
            assert(some_drink_requires(cat, x));
        }
    }
    assert forall|i: int| 0 <= i < cat.drinks@.len() implies is_candidate(cat, avail, i)
        == is_candidate(cat, a2, i) && missing_count(cat, avail, i) == missing_count(
        cat,
        a2,
        i,
    ) by {
        lemma_missing_of_agree(cat.drinks@[i].required@, avail, a2);
    }
    lemma_entries_agree(cat, avail, a2, cat.drinks@.len() as int);
    let order = ranked(cat, avail);
    assert(ranked(cat, a2) == order);
    lemma_ranked_props(cat, avail);
    assert forall|k: int| 0 <= k < order.len() implies result_for(
        cat,
        a2,
        #[trigger] out[k],
        order[k].1,
    ) by {
        assert(result_for(cat, avail, out[k], order[k].1));
        assert(entry_ok(cat, avail, order[k]));
        lemma_missing_of_agree(cat.drinks@[order[k].1].required@, avail, a2);
    }
}

/// Full match: a drink whose whole required set is available appears, with
/// nothing missing.
pub proof fn lemma_full_match(cat: Catalog, avail: Set<Seq<char>>, out: Seq<DrinkResult>, i: int)
    requires
        cat.wf(),
        match_post(cat, avail, out),
        0 <= i < cat.drinks@.len(),
        forall|j: int|
            0 <= j < cat.drinks@[i].required@.len() ==> avail.contains(
                #[trigger] cat.drinks@[i].required@[j]@,
            ),
    ensures
        exists|k: int|
            0 <= k < out.len() && #[trigger] out[k].id@ == cat.drinks@[i].id@
                && out[k].missing@.len() == 0,
{
    lemma_ranked_props(cat, avail);
    let d = cat.drinks@[i];
    assert(drink_data_wf(cat.ingredients@, d));
    assert(avail.contains(d.required@[0]@));
    assert(is_candidate(cat, avail, i));
    lemma_missing_of_all_present(d.required@, avail);
    assert(missing_count(cat, avail, i) == 0);
    let order = ranked(cat, avail);
    assert(order.contains((missing_count(cat, avail, i), i)));
    let k = choose|k: int| 0 <= k < order.len() && order[k] == (missing_count(cat, avail, i), i);
    assert(result_for(cat, avail, out[k], i));
    assert(out[k].id@ == cat.drinks@[i].id@ && out[k].missing@.len() == 0);
}

} // verus!


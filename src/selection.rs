//! Choosing the next theme for a user among those the user has not voted on.

use vstd::prelude::*;
use crate::models::{Theme, ThemeResponse};

verus! {

/// The themes of `catalog` whose id is not in `seen`, in catalog order.
pub open spec fn unseen(catalog: Seq<Theme>, seen: Set<i32>) -> Seq<Theme> {
    catalog.filter(not_in(seen))
}

/// Holds of a theme whose id is not in `seen`.
pub open spec fn not_in(seen: Set<i32>) -> spec_fn(Theme) -> bool {
    |t: Theme| !seen.contains(t.id)
}

/// The candidate at position `index`, or `None` when there is none.
pub open spec fn pick_from(candidates: Seq<Theme>, index: u64) -> Option<Theme> {
    if candidates.len() == 0 {
        None
    } else {
        Some(candidates[index as int])
    }
}

/// Whether `index` names a candidate, or there is none to name.
pub open spec fn index_fits(candidates: Seq<Theme>, index: u64) -> bool {
    candidates.len() == 0 || index < candidates.len()
}

/// The draws that `uniform_index` accepts for `n` candidates: those below the
/// largest multiple of `n` that fits in a `u64`.
pub open spec fn accept_limit(n: u64) -> int {
    (u64::MAX / n) as int * n as int
}

/// A uniform index below `n` from a uniform 64-bit draw, by rejection: an
/// accepted draw gives its remainder modulo `n`; a draw at or above
/// `accept_limit(n)` is refused, and the caller draws again.
pub fn uniform_index(draw: u64, n: u64) -> (r: Option<u64>)
    requires
        n > 0,
    ensures
        r == if draw < accept_limit(n) {
            Some((draw % n) as u64)
        } else {
            None::<u64>
        },
{
    let blocks = u64::MAX / n;
    proof {
        assert(blocks as int * n as int <= u64::MAX) by (nonlinear_arith)
            requires
                blocks == u64::MAX / n,
                n > 0,
        ;
    }
    let limit = blocks * n;
    if draw < limit {
        Some(draw % n)
    } else {
        None
    }
}

/// The accepted draws form whole blocks of `n` consecutive values, at least
/// one: each index below `n` is the remainder of exactly one draw in each
/// block, so every index comes from equally many accepted draws.
pub proof fn lemma_accepted_draws_are_even(n: u64)
    requires
        n > 0,
    ensures
        accept_limit(n) % (n as int) == 0,
        accept_limit(n) >= n,
        forall|k: int, i: int|
            0 <= k < accept_limit(n) / (n as int) && 0 <= i < n ==> 0 <= #[trigger] (k * n + i)
                < accept_limit(n) && (k * n + i) % (n as int) == i,
{
    let b = (u64::MAX / n) as int;
    let m = n as int;
    assert(b >= 1) by (nonlinear_arith)
        requires
            b == u64::MAX / n,
            n > 0,
    ;
    assert((b * m) % m == 0 && (b * m) / m == b) by (nonlinear_arith)
        requires
            m > 0,
    ;
    assert(b * m >= m) by (nonlinear_arith)
        requires
            b >= 1,
            m > 0,
    ;
    assert forall|k: int, i: int| 0 <= k < b && 0 <= i < m implies 0 <= #[trigger] (k * m + i) < b * m
        && (k * m + i) % m == i by {
        assert(0 <= k * m + i < b * m && (k * m + i) % m == i) by (nonlinear_arith)
            requires
                0 <= k < b,
                0 <= i < m,
        ;
    }
}

/// Whether `ids` holds `id`.
pub fn contains_id(ids: &Vec<i32>, id: i32) -> (r: bool)
    ensures
        r == ids@.contains(id),
{
    let mut i: usize = 0;
    while i < ids.len()
        invariant
            i <= ids.len(),
            forall|j: int| 0 <= j < i ==> ids@[j] != id,
        decreases ids.len() - i,
    {
        if ids[i] == id {
            return true;
        }
        i = i + 1;
    }
    false
}

/// The themes of `catalog` that `seen` does not name, in catalog order.
pub fn unseen_themes(catalog: &Vec<Theme>, seen: &Vec<i32>) -> (r: Vec<Theme>)
    ensures
        r@ == unseen(catalog@, seen@.to_set()),
{
    let ghost pred = not_in(seen@.to_set());
    let mut out: Vec<Theme> = Vec::new();
    let mut i: usize = 0;
    while i < catalog.len()
        invariant
            i <= catalog.len(),
            pred == not_in(seen@.to_set()),
            out@ == catalog@.subrange(0, i as int).filter(pred),
        decreases catalog.len() - i,
    {
        let ghost prefix = catalog@.subrange(0, i as int + 1);
        assert(prefix.drop_last() == catalog@.subrange(0, i as int));
        assert(prefix.last() == catalog@[i as int]);
        reveal(Seq::filter);
        assert(prefix.filter(pred) == if pred(prefix.last()) {
            prefix.drop_last().filter(pred).push(prefix.last())
        } else {
            prefix.drop_last().filter(pred)
        });
        let keep = !contains_id(seen, catalog[i].id);
        if keep {
            out.push(catalog[i].duplicate());
        }
        i = i + 1;
    }
    assert(catalog@.subrange(0, catalog.len() as int) == catalog@);
    out
}

/// Picks the candidate at position `index`.
pub fn pick_theme(candidates: &Vec<Theme>, index: u64) -> (r: Option<Theme>)
    requires
        index_fits(candidates@, index),
    ensures
        r == pick_from(candidates@, index),
{
    if candidates.len() == 0 {
        None
    } else {
        Some(candidates[index as usize].duplicate())
    }
}

/// How many themes of `catalog` are outside `seen`: the range from which the
/// index given to `select_next` is drawn.
pub fn candidate_count(catalog: &Vec<Theme>, seen: &Vec<i32>) -> (r: usize)
    ensures
        r == unseen(catalog@, seen@.to_set()).len(),
{
    unseen_themes(catalog, seen).len()
}

/// The answer to "next theme" for a user who has voted on the themes in
/// `seen`: the theme outside `seen` at position `index` among those left (an
/// index drawn uniformly below `candidate_count`), or none when every theme
/// of the catalog has been seen.
pub fn select_next(catalog: &Vec<Theme>, seen: &Vec<i32>, index: u64) -> (r: ThemeResponse)
    requires
        catalog.len() <= i64::MAX,
        seen.len() <= i64::MAX,
        index_fits(unseen(catalog@, seen@.to_set()), index),
    ensures
        r.total == catalog.len(),
        r.seen == seen.len(),
        r.theme == pick_from(unseen(catalog@, seen@.to_set()), index),
        r.theme is None <==> forall|i: int|
            0 <= i < catalog.len() ==> seen@.contains(#[trigger] catalog@[i].id),
        r.theme matches Some(t) ==> catalog@.contains(t) && !seen@.contains(t.id),
{
    let candidates = unseen_themes(catalog, seen);
    let theme = pick_theme(&candidates, index);
    proof {
        lemma_unseen_facts(catalog@, seen@.to_set());
        if theme is Some {
            assert(candidates@.contains(candidates@[index as int]));
        }
    }
    ThemeResponse { theme, total: catalog.len() as i64, seen: seen.len() as i64 }
}

/// The unseen themes are catalog themes outside `seen`, and there are none
/// exactly when every catalog theme is in `seen`.
pub proof fn lemma_unseen_facts(catalog: Seq<Theme>, seen: Set<i32>)
    ensures
        forall|t: Theme| #[trigger] unseen(catalog, seen).contains(t) ==> catalog.contains(t)
            && !seen.contains(t.id),
        unseen(catalog, seen).len() == 0 <==> forall|i: int|
            0 <= i < catalog.len() ==> seen.contains(#[trigger] catalog[i].id),
{
    let pred = not_in(seen);
    #[allow(deprecated)]
    catalog.filter_lemma(pred);
    assert forall|t: Theme| #[trigger] unseen(catalog, seen).contains(t) implies catalog.contains(t)
        && !seen.contains(t.id) by {
        catalog.lemma_filter_contains_rev(pred, t);
        let k = choose|k: int| 0 <= k < unseen(catalog, seen).len() && unseen(catalog, seen)[k] == t;
        assert(pred(unseen(catalog, seen)[k]));
    }
    if unseen(catalog, seen).len() == 0 {
        assert forall|i: int| 0 <= i < catalog.len() implies seen.contains(#[trigger] catalog[i].id) by {
            if !seen.contains(catalog[i].id) {
                assert(unseen(catalog, seen).contains(catalog[i]));
            }
        }
    } else {
        let t = unseen(catalog, seen)[0];
        assert(unseen(catalog, seen).contains(t));
        assert(pred(t));
    }
}

} // verus!

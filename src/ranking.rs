//! Ranking of the open windows against a query: filter, order, cap.

use crate::scoring::{score, skim_score};
use vstd::prelude::*;

verus! {

/// An open window as the ranking sees it: its class.
pub struct WindowInfo {
    pub class: String,
}

/// A window that matched, by its position in the window list, with its score.
#[derive(Clone, Copy, Debug, PartialEq, Eq, Structural)]
pub struct ScoredWindow {
    pub index: usize,
    pub score: i64,
}

/// A score that lets its window into the ranking: a match with a positive score.
pub open spec fn is_match(s: Option<i64>) -> bool {
    s matches Some(v) && v > 0
}

/// `a` is listed before `b`: a higher score, or an equal score and an earlier window.
pub open spec fn precedes(a: ScoredWindow, b: ScoredWindow) -> bool {
    a.score > b.score || (a.score == b.score && a.index < b.index)
}

/// The entry that window `k` would have in a ranking over `scores`.
pub open spec fn entry_of(scores: Seq<Option<i64>>, k: int) -> ScoredWindow {
    ScoredWindow { index: k as usize, score: scores[k]->0 }
}

/// `r` is the ranking of the windows with scores `scores`, capped at
/// `max_entries`: the matching windows with their scores, in strictly
/// descending order of `precedes`, and no matching window left out unless
/// the list is full and every listed window precedes it. Exactly one
/// sequence meets this for given `scores` and `max_entries`.
pub open spec fn is_ranking(scores: Seq<Option<i64>>, max_entries: nat, r: Seq<ScoredWindow>) -> bool {
    &&& r.len() <= max_entries
    &&& forall|i: int|
        0 <= i < r.len() ==> {
            &&& (#[trigger] r[i]).index < scores.len()
            &&& scores[r[i].index as int] == Some(r[i].score)
            &&& r[i].score > 0
        }
    &&& forall|i: int, j: int| 0 <= i < j < r.len() ==> precedes(#[trigger] r[i], #[trigger] r[j])
    &&& forall|k: int|
        0 <= k < scores.len() && is_match(#[trigger] scores[k]) ==> {
            ||| exists|i: int| 0 <= i < r.len() && (#[trigger] r[i]).index == k
            ||| r.len() == max_entries && forall|i: int|
                0 <= i < r.len() ==> precedes(#[trigger] r[i], entry_of(scores, k))
        }
}

/// Where two rankings over the same scores and cap agree before position `p`,
/// the first cannot list a window at `p` that precedes the second's.
proof fn ranking_not_ahead(
    scores: Seq<Option<i64>>,
    max_entries: nat,
    a: Seq<ScoredWindow>,
    b: Seq<ScoredWindow>,
    p: int,
)
    requires
        is_ranking(scores, max_entries, a),
        is_ranking(scores, max_entries, b),
        0 <= p < a.len(),
        p < b.len(),
        forall|i: int| 0 <= i < p ==> a[i] == b[i],
    ensures
        !precedes(a[p], b[p]),
{
    let k = a[p].index as int;
    assert(is_match(scores[k]));
    assert(entry_of(scores, k) == a[p]);
    if precedes(a[p], b[p]) {
        if exists|q: int| 0 <= q < b.len() && (#[trigger] b[q]).index == k {
            let q = choose|q: int| 0 <= q < b.len() && (#[trigger] b[q]).index == k;
            assert(b[q] == a[p]);
            if q < p {
                assert(a[q] == b[q]);
                assert(precedes(a[q], a[p]));
            } else if q > p {
                assert(precedes(b[p], b[q]));
            }
        } else {
            assert(precedes(b[p], entry_of(scores, k)));
        }
    }
}

/// Two rankings over the same scores and cap agree on their first `p` entries.
proof fn ranking_prefix_agrees(
    scores: Seq<Option<i64>>,
    max_entries: nat,
    a: Seq<ScoredWindow>,
    b: Seq<ScoredWindow>,
    p: int,
)
    requires
        is_ranking(scores, max_entries, a),
        is_ranking(scores, max_entries, b),
        0 <= p <= a.len(),
        p <= b.len(),
    ensures
        forall|i: int| 0 <= i < p ==> a[i] == b[i],
    decreases p,
{
    if p > 0 {
        ranking_prefix_agrees(scores, max_entries, a, b, p - 1);
        ranking_not_ahead(scores, max_entries, a, b, p - 1);
        ranking_not_ahead(scores, max_entries, b, a, p - 1);
    }
}

/// A ranking is determined by the scores and the cap: two sequences that are
/// both rankings of the same scores under the same cap are equal.
pub proof fn ranking_is_unique(
    scores: Seq<Option<i64>>,
    max_entries: nat,
    a: Seq<ScoredWindow>,
    b: Seq<ScoredWindow>,
)
    requires
        is_ranking(scores, max_entries, a),
        is_ranking(scores, max_entries, b),
    ensures
        a == b,
{
    let m = if a.len() <= b.len() { a.len() as int } else { b.len() as int };
    ranking_prefix_agrees(scores, max_entries, a, b, m);
    ranking_not_shorter(scores, max_entries, a, b);
    ranking_not_shorter(scores, max_entries, b, a);
    assert(a =~= b);
}

/// Of two rankings over the same scores and cap, neither is shorter.
proof fn ranking_not_shorter(
    scores: Seq<Option<i64>>,
    max_entries: nat,
    a: Seq<ScoredWindow>,
    b: Seq<ScoredWindow>,
)
    requires
        is_ranking(scores, max_entries, a),
        is_ranking(scores, max_entries, b),
    ensures
        a.len() >= b.len(),
{
    if a.len() < b.len() {
        ranking_prefix_agrees(scores, max_entries, a, b, a.len() as int);
        let p = a.len() as int;
        let k = b[p].index as int;
        assert(is_match(scores[k]));
        if exists|q: int| 0 <= q < a.len() && (#[trigger] a[q]).index == k {
            let q = choose|q: int| 0 <= q < a.len() && (#[trigger] a[q]).index == k;
            assert(a[q] == b[q]);
            assert(precedes(b[q], b[p]));
        }
    }
}

/// The score of each window's class against `query`.
pub open spec fn window_scores(query: Seq<char>, windows: Seq<WindowInfo>) -> Seq<Option<i64>> {
    Seq::new(windows.len(), |i: int| skim_score(windows[i].class@, query))
}

/// Ranks windows whose scores are `scores`, keeping at most `max_entries`.
pub fn rank_scores(scores: &Vec<Option<i64>>, max_entries: usize) -> (r: Vec<ScoredWindow>)
    ensures
        is_ranking(scores@, max_entries as nat, r@),
{
    let mut v: Vec<ScoredWindow> = Vec::new();
    let mut i: usize = 0;
    while i < scores.len()
        invariant
            i <= scores@.len(),
            forall|t: int|
                0 <= t < v@.len() ==> {
                    &&& (#[trigger] v@[t]).index < i
                    &&& scores@[v@[t].index as int] == Some(v@[t].score)
                    &&& v@[t].score > 0
                },
            forall|s: int, t: int| 0 <= s < t < v@.len() ==> precedes(#[trigger] v@[s], #[trigger] v@[t]),
            forall|k: int|
                0 <= k < i && is_match(#[trigger] scores@[k]) ==> exists|t: int|
                    0 <= t < v@.len() && (#[trigger] v@[t]).index == k,
        decreases scores@.len() - i,
    {
        if let Some(sc) = scores[i] {
            if sc > 0 {
                let x = ScoredWindow { index: i, score: sc };
                let mut j: usize = 0;
                while j < v.len() && v[j].score >= sc
                    invariant
                        j <= v@.len(),
                        forall|t: int| 0 <= t < j ==> (#[trigger] v@[t]).score >= sc,
                    decreases v@.len() - j,
                {
                    j += 1;
                }
                let ghost old_v = v@;
                proof {
                    if j < old_v.len() {
                        assert forall|t: int| j <= t < old_v.len() implies precedes(x, #[trigger] old_v[t]) by {
                            if t > j {
                                assert(precedes(old_v[j as int], old_v[t]));
                            }
                        }
                    }
                }
                v.insert(j, x);
                proof {
                    assert forall|t: int| 0 <= t < old_v.len() implies
                        v@[if t < j { t } else { t + 1 }] == #[trigger] old_v[t] by {}
                    assert forall|s: int, t: int| 0 <= s < t < v@.len() implies precedes(#[trigger] v@[s], #[trigger] v@[t]) by {
                        if t < j {
                            assert(v@[s] == old_v[s] && v@[t] == old_v[t]);
                        } else if s < j && t == j {
                            assert(precedes(old_v[s], x));
                        } else if s < j && t > j {
                            assert(v@[t] == old_v[t - 1]);
                        } else if s == j {
                            assert(v@[t] == old_v[t - 1]);
                        } else {
                            assert(v@[s] == old_v[s - 1]);
                            assert(v@[t] == old_v[t - 1]);
                        }
                    }
                    assert forall|k: int|
                        0 <= k < i + 1 && is_match(#[trigger] scores@[k]) implies exists|t: int|
                            0 <= t < v@.len() && (#[trigger] v@[t]).index == k by {
                        if k == i {
                            assert(v@[j as int].index == k);
                        } else {
                            let t = choose|t: int| 0 <= t < old_v.len() && (#[trigger] old_v[t]).index == k;
                            assert(v@[if t < j { t } else { t + 1 }] == old_v[t]);
                        }
                    }
                }
            }
        }
        i += 1;
    }
    let ghost full = v@;
    v.truncate(max_entries);
    proof {
        assert forall|k: int|
            0 <= k < scores@.len() && is_match(#[trigger] scores@[k]) implies {
                ||| exists|i: int| 0 <= i < v@.len() && (#[trigger] v@[i]).index == k
                ||| v@.len() == max_entries && forall|i: int|
                    0 <= i < v@.len() ==> precedes(#[trigger] v@[i], entry_of(scores@, k))
            } by {
            let t = choose|t: int| 0 <= t < full.len() && (#[trigger] full[t]).index == k;
            if t >= max_entries {
                assert forall|i: int| 0 <= i < v@.len() implies precedes(#[trigger] v@[i], entry_of(scores@, k)) by {
                    assert(precedes(full[i], full[t]));
                }
            } else {
                assert(v@[t].index == k);
            }
        }
    }
    v
}

} // verus!

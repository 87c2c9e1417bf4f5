//! Fuzzy ranking of the catalog against a query.
//!
//! `rank` is a pure function of (catalog, query text, match field).  Its
//! result is pinned down completely: it holds exactly the catalog entries
//! with a strictly positive fuzzy score, in descending score order, ties kept
//! in catalog order.

use vstd::prelude::*;

use crate::song::{song_field, SearchBy, Song};

use fuzzy_matcher::FuzzyMatcher;

verus! {

/// The score that skim's fuzzy matcher assigns to `choice` against
/// `pattern`; `None` when the pattern does not match at all.  The matcher is
/// deterministic, so the score is a function of the two texts alone.
pub uninterp spec fn fuzzy_score(choice: Seq<char>, pattern: Seq<char>) -> Option<i64>;

/// Relies on fuzzy_matcher's `SkimMatcherV2` under its default configuration
/// and on `FuzzyMatcher::fuzzy_match`: the score depends on the two texts
/// alone (the matcher's thread-local buffers are scratch space), and an empty
/// pattern always scores `Some(0)`.
#[verifier::external_body]
fn fuzzy_match_score(choice: &str, pattern: &str) -> (r: Option<i64>)
    ensures
        r == fuzzy_score(choice@, pattern@),
        pattern@.len() == 0 ==> r == Some(0i64),
{
    let matcher = fuzzy_matcher::skim::SkimMatcherV2::default();
    matcher.fuzzy_match(choice, pattern)
}

/// One ranked result: a copy of the matched song, its score, and its position
/// in the catalog it was ranked from.
pub struct RankedSong {
    pub song: Song,
    pub score: i64,
    pub cat_idx: usize,
}

/// The fuzzy score of catalog entry `i` for this query.
pub open spec fn score_at(cat: Seq<Song>, by: SearchBy, pattern: Seq<char>, i: int) -> Option<
    i64,
> {
    fuzzy_score(cat[i].field_view(by), pattern)
}

/// Whether catalog entry `i` matches the query with a strictly positive score.
pub open spec fn pos_score(cat: Seq<Song>, by: SearchBy, pattern: Seq<char>, i: int) -> bool {
    match score_at(cat, by, pattern, i) {
        Some(s) => s > 0,
        None => false,
    }
}

/// Strict order of ranked entries: higher score first; equal scores keep
/// catalog order.
pub open spec fn ranked_above(a: RankedSong, b: RankedSong) -> bool {
    a.score > b.score || (a.score == b.score && a.cat_idx < b.cat_idx)
}

/// A well-formed ranked entry: it copies a catalog song and carries that
/// song's (strictly positive) score.
pub open spec fn ranked_entry_ok(
    cat: Seq<Song>,
    by: SearchBy,
    pattern: Seq<char>,
    e: RankedSong,
) -> bool {
    &&& 0 <= e.cat_idx < cat.len()
    &&& e.song == cat[e.cat_idx as int]
    &&& score_at(cat, by, pattern, e.cat_idx as int) == Some(e.score)
    &&& e.score > 0
}

/// A sequence of well-formed ranked entries in strictly descending rank
/// order: higher scores first, ties in catalog order.
pub open spec fn ranked_sorted(
    cat: Seq<Song>,
    by: SearchBy,
    pattern: Seq<char>,
    res: Seq<RankedSong>,
) -> bool {
    &&& forall|j: int| 0 <= j < res.len() ==> ranked_entry_ok(cat, by, pattern, #[trigger] res[j])
    &&& forall|j: int, k: int|
        0 <= j < k < res.len() ==> ranked_above(#[trigger] res[j], #[trigger] res[k])
}

/// Whether some entry of `res` ranks catalog position `i`.
pub open spec fn contains_idx(res: Seq<RankedSong>, i: int) -> bool {
    exists|j: int| 0 <= j < res.len() && (#[trigger] res[j]).cat_idx == i
}

/// Everything `rank` promises: entries are well formed, strictly ordered
/// (descending score, ties in catalog order), and every positively scored
/// catalog entry appears.  These clauses determine the result uniquely
/// (`lemma_results_unique`).
pub open spec fn results_ok(
    cat: Seq<Song>,
    by: SearchBy,
    pattern: Seq<char>,
    res: Seq<RankedSong>,
) -> bool {
    &&& ranked_sorted(cat, by, pattern, res)
    &&& forall|i: int|
        0 <= i < cat.len() && pos_score(cat, by, pattern, i) ==> contains_idx(res, i)
}

/// Rank the catalog against a query: keep the entries whose selected field
/// matches with a strictly positive score, sorted by descending score, ties
/// in catalog order.  An empty query yields no results, never "everything".
pub fn rank(catalog: &Vec<Song>, query: &String, by: &SearchBy) -> (res: Vec<RankedSong>)
    ensures
        query@.len() == 0 ==> res@.len() == 0,
        query@.len() > 0 ==> results_ok(catalog@, *by, query@, res@),
{
    let mut res: Vec<RankedSong> = Vec::new();
    if query.as_str().is_empty() {
        return res;
    }
    let n = catalog.len();
    let mut i: usize = 0;
    while i < n
        invariant
            n == catalog@.len(),
            i <= n,
            query@.len() > 0,
            forall|j: int|
                0 <= j < res@.len() ==> ranked_entry_ok(catalog@, *by, query@, #[trigger] res@[j]),
            forall|j: int| 0 <= j < res@.len() ==> (#[trigger] res@[j]).cat_idx < i,
            forall|j: int, k: int|
                0 <= j < k < res@.len() ==> ranked_above(#[trigger] res@[j], #[trigger] res@[k]),
            forall|c: int|
                0 <= c < i && pos_score(catalog@, *by, query@, c) ==> exists|j: int|
                    0 <= j < res@.len() && (#[trigger] res@[j]).cat_idx == c,
        decreases n - i,
    {
        let hay = song_field(&catalog[i], by);
        let sc_opt = fuzzy_match_score(hay.as_str(), query.as_str());
        proof {
            assert(sc_opt == score_at(catalog@, *by, query@, i as int));
        }
        if let Some(sc) = sc_opt {
            if sc > 0 {
                let ghost old_res = res@;
                let mut p: usize = 0;
                while p < res.len() && res[p].score >= sc
                    invariant
                        res@ == old_res,
                        p <= res@.len(),
                        forall|j: int| 0 <= j < p ==> (#[trigger] res@[j]).score >= sc,
                    decreases res@.len() - p,
                {
                    p += 1;
                }
                let entry = RankedSong { song: catalog[i].clone(), score: sc, cat_idx: i };
                res.insert(p, entry);
                proof {
                    let s = old_res;
                    let t = res@;
                    let e = RankedSong { song: catalog@[i as int], score: sc, cat_idx: i };
                    assert(t == s.insert(p as int, e));
                    assert forall|j: int| 0 <= j < t.len() implies ranked_entry_ok(
                        catalog@,
                        *by,
                        query@,
                        #[trigger] t[j],
                    ) && t[j].cat_idx < i + 1 by {
                        if j < p {
                            assert(t[j] == s[j]);
                        } else if j == p {
                            assert(t[j] == e);
                        } else {
                            assert(t[j] == s[j - 1]);
                        }
                    }
                    assert forall|j: int, k: int| 0 <= j < k < t.len() implies ranked_above(
                        #[trigger] t[j],
                        #[trigger] t[k],
                    ) by {
                        if k < p {
                            assert(t[j] == s[j] && t[k] == s[k]);
                        } else if k == p {
                            // everything before the insertion point scores >= sc,
                            // and on a tie its catalog index is below i
                            assert(t[j] == s[j] && s[j].score >= sc && s[j].cat_idx < i);
                        } else if j == p {
                            // the first entry past the insertion point scores < sc,
                            // and entries after it score no higher
                            assert(t[k] == s[k - 1] && s[p as int].score < sc);
                            if k - 1 > p {
                                assert(ranked_above(s[p as int], s[k - 1]));
                            }
                        } else if j < p {
                            assert(t[j] == s[j] && t[k] == s[k - 1]);
                        } else {
                            assert(t[j] == s[j - 1] && t[k] == s[k - 1]);
                        }
                    }
                    assert forall|c: int|
                        0 <= c < i + 1 && pos_score(catalog@, *by, query@, c) implies exists|j: int|
                        0 <= j < t.len() && (#[trigger] t[j]).cat_idx == c by {
                        if c == i {
                            assert(t[p as int].cat_idx == c);
                        } else {
                            let j = choose|j: int| 0 <= j < s.len() && (#[trigger] s[j]).cat_idx
                                == c;
                            if j < p {
                                assert(t[j].cat_idx == c);
                            } else {
                                assert(t[j + 1].cat_idx == c);
                            }
                        }
                    }
                }
            }
        }
        i += 1;
    }
    res
}

/// Two entries that rank the same catalog position are the same entry: a
/// well-formed entry carries that position's song and score.
proof fn lemma_entry_determined(
    cat: Seq<Song>,
    by: SearchBy,
    pattern: Seq<char>,
    a: RankedSong,
    b: RankedSong,
)
    requires
        ranked_entry_ok(cat, by, pattern, a),
        ranked_entry_ok(cat, by, pattern, b),
        a.cat_idx == b.cat_idx,
    ensures
        a == b,
{
}

/// Strictly ordered rankings with the same members are equal.
proof fn lemma_sorted_same_members(
    cat: Seq<Song>,
    by: SearchBy,
    pattern: Seq<char>,
    r1: Seq<RankedSong>,
    r2: Seq<RankedSong>,
)
    requires
        ranked_sorted(cat, by, pattern, r1),
        ranked_sorted(cat, by, pattern, r2),
        forall|i: int| contains_idx(r1, i) <==> contains_idx(r2, i),
    ensures
        r1 =~= r2,
    decreases r1.len(),
{
    if r1.len() == 0 {
        if r2.len() > 0 {
            assert(contains_idx(r2, r2[0].cat_idx as int));
            assert(contains_idx(r1, r2[0].cat_idx as int));
            assert(false);
        }
    } else {
        assert(contains_idx(r1, r1[0].cat_idx as int));
        assert(contains_idx(r2, r1[0].cat_idx as int));
        let j = choose|j: int| 0 <= j < r2.len() && (#[trigger] r2[j]).cat_idx
            == r1[0].cat_idx as int;
        lemma_entry_determined(cat, by, pattern, r2[j], r1[0]);
        if j > 0 {
            // the head of r2 would have to rank both above and below the
            // head of r1, which the strict order forbids
            assert(ranked_above(r2[0], r1[0]));
            assert(contains_idx(r2, r2[0].cat_idx as int));
            assert(contains_idx(r1, r2[0].cat_idx as int));
            let k = choose|k: int| 0 <= k < r1.len() && (#[trigger] r1[k]).cat_idx
                == r2[0].cat_idx as int;
            lemma_entry_determined(cat, by, pattern, r1[k], r2[0]);
            if k > 0 {
                assert(ranked_above(r1[0], r1[k]));
                assert(false);
            } else {
                assert(ranked_above(r2[0], r2[0]));
                assert(false);
            }
        }
        assert(r2[0] == r1[0]);
        let t1 = r1.drop_first();
        let t2 = r2.drop_first();
        assert forall|i: int| contains_idx(t1, i) implies contains_idx(t2, i) by {
            let j = choose|j: int| 0 <= j < t1.len() && (#[trigger] t1[j]).cat_idx == i;
            assert(r1[j + 1].cat_idx == i);
            assert(contains_idx(r1, i));
            assert(contains_idx(r2, i));
            let m = choose|m: int| 0 <= m < r2.len() && (#[trigger] r2[m]).cat_idx == i;
            if m == 0 {
                // the head cannot reappear deeper in a strictly ordered list
                lemma_entry_determined(cat, by, pattern, r1[j + 1], r2[0]);
                assert(ranked_above(r1[0], r1[j + 1]));
                assert(false);
            }
            assert(t2[m - 1].cat_idx == i);
        }
        assert forall|i: int| contains_idx(t2, i) implies contains_idx(t1, i) by {
            let j = choose|j: int| 0 <= j < t2.len() && (#[trigger] t2[j]).cat_idx == i;
            assert(r2[j + 1].cat_idx == i);
            assert(contains_idx(r2, i));
            assert(contains_idx(r1, i));
            let m = choose|m: int| 0 <= m < r1.len() && (#[trigger] r1[m]).cat_idx == i;
            if m == 0 {
                lemma_entry_determined(cat, by, pattern, r2[j + 1], r1[0]);
                assert(ranked_above(r2[0], r2[j + 1]));
                assert(false);
            }
            assert(t1[m - 1].cat_idx == i);
        }
        assert(ranked_sorted(cat, by, pattern, t1)) by {
            assert(forall|j: int| 0 <= j < t1.len() ==> #[trigger] t1[j] == r1[j + 1]);
        }
        assert(ranked_sorted(cat, by, pattern, t2)) by {
            assert(forall|j: int| 0 <= j < t2.len() ==> #[trigger] t2[j] == r2[j + 1]);
        }
        lemma_sorted_same_members(cat, by, pattern, t1, t2);
        assert forall|i: int| 0 <= i < r1.len() implies r1[i] == r2[i] by {
            if i > 0 {
                assert(r1[i] == t1[i - 1] && r2[i] == t2[i - 1]);
            }
        }
    }
}

/// The ranking contract pins the result down: for one catalog, query and
/// match field, any two results that satisfy it are equal.  Descending
/// score with catalog-order ties is the only order the contract admits.
pub proof fn lemma_results_unique(
    cat: Seq<Song>,
    by: SearchBy,
    pattern: Seq<char>,
    r1: Seq<RankedSong>,
    r2: Seq<RankedSong>,
)
    requires
        results_ok(cat, by, pattern, r1),
        results_ok(cat, by, pattern, r2),
    ensures
        r1 == r2,
{
    assert forall|i: int| contains_idx(r1, i) implies contains_idx(r2, i) by {
        let j = choose|j: int| 0 <= j < r1.len() && (#[trigger] r1[j]).cat_idx == i;
        assert(ranked_entry_ok(cat, by, pattern, r1[j]));
        assert(pos_score(cat, by, pattern, i));
    }
    assert forall|i: int| contains_idx(r2, i) implies contains_idx(r1, i) by {
        let j = choose|j: int| 0 <= j < r2.len() && (#[trigger] r2[j]).cat_idx == i;
        assert(ranked_entry_ok(cat, by, pattern, r2[j]));
        assert(pos_score(cat, by, pattern, i));
    }
    lemma_sorted_same_members(cat, by, pattern, r1, r2);
}

} // verus!

//! The ranker: a stable descending sort of scored pull requests on the
//! ranking key `total * 1000` truncated to an integer. Two pull requests
//! with the same key keep their relative input order.

use vstd::prelude::*;
use crate::score::{score_wf, spec_rank_key};
use crate::types::ScoredPr;

verus! {

/// The ranking key of one scored pull request.
pub open spec fn spec_key(spr: ScoredPr) -> int {
    spec_rank_key(spr.score)
}

/// Keys never increase from left to right.
pub open spec fn sorted_desc(s: Seq<ScoredPr>) -> bool {
    forall|i: int, j: int|
        0 <= i < j < s.len() ==> spec_key(#[trigger] s[i]) >= spec_key(#[trigger] s[j])
}

/// Inserts `x` directly before the first element whose key is strictly
/// below `x`'s key, so `x` lands after every earlier element of equal key.
pub open spec fn spec_insert_desc(s: Seq<ScoredPr>, x: ScoredPr) -> Seq<ScoredPr>
    decreases s.len(),
{
    if s.len() == 0 {
        seq![x]
    } else if spec_key(s[0]) < spec_key(x) {
        seq![x] + s
    } else {
        seq![s[0]] + spec_insert_desc(s.drop_first(), x)
    }
}

/// Insertion sort of the whole sequence: stable and descending by key.
pub open spec fn spec_sort_desc(s: Seq<ScoredPr>) -> Seq<ScoredPr>
    decreases s.len(),
{
    if s.len() == 0 {
        Seq::empty()
    } else {
        spec_insert_desc(spec_sort_desc(s.drop_last()), s.last())
    }
}

/// The position where `spec_insert_desc` puts `x`: the first index whose
/// key is strictly below `x`'s key, or the length if there is none.
pub open spec fn spec_insert_pos(s: Seq<ScoredPr>, x: ScoredPr) -> int
    decreases s.len(),
{
    if s.len() == 0 {
        0
    } else if spec_key(s[0]) < spec_key(x) {
        0
    } else {
        1 + spec_insert_pos(s.drop_first(), x)
    }
}

/// `spec_insert_desc` is insertion at `spec_insert_pos`: everything before
/// that position has a key at least `x`'s, and the element there (if any)
/// has a strictly smaller key.
proof fn lemma_insert_pos_props(p: Seq<ScoredPr>, x: ScoredPr)
    ensures
        0 <= spec_insert_pos(p, x) <= p.len(),
        forall|k: int|
            0 <= k < spec_insert_pos(p, x) ==> spec_key(#[trigger] p[k]) >= spec_key(x),
        spec_insert_pos(p, x) < p.len() ==> spec_key(p[spec_insert_pos(p, x)]) < spec_key(x),
        spec_insert_desc(p, x) == p.insert(spec_insert_pos(p, x), x),
    decreases p.len(),
{
    if p.len() == 0 {
    } else if spec_key(p[0]) < spec_key(x) {
    } else {
        lemma_insert_pos_props(p.drop_first(), x);
        assert forall|k: int| 0 <= k < spec_insert_pos(p, x) implies spec_key(#[trigger] p[k])
            >= spec_key(x) by {
            if k >= 1 {
                assert(p[k] == p.drop_first()[k - 1]);
            }
        }
        if spec_insert_pos(p, x) < p.len() {
            assert(p[spec_insert_pos(p, x)] == p.drop_first()[spec_insert_pos(p, x) - 1]);
        }
    }
    lemma_insert_desc_at(p, x, spec_insert_pos(p, x));
}

/// `spec_insert_desc` places `x` exactly at the first position whose key is
/// strictly below `x`'s key.
proof fn lemma_insert_desc_at(p: Seq<ScoredPr>, x: ScoredPr, j: int)
    requires
        0 <= j <= p.len(),
        forall|k: int| 0 <= k < j ==> spec_key(#[trigger] p[k]) >= spec_key(x),
        j < p.len() ==> spec_key(p[j]) < spec_key(x),
    ensures
        spec_insert_desc(p, x) == p.insert(j, x),
    decreases p.len(),
{
    if p.len() == 0 {
        assert(spec_insert_desc(p, x) =~= p.insert(0, x));
    } else if spec_key(p[0]) < spec_key(x) {
        assert(j == 0);
        assert(spec_insert_desc(p, x) =~= p.insert(0, x));
    } else {
        assert(j >= 1);
        lemma_insert_desc_at(p.drop_first(), x, j - 1);
        assert(seq![p[0]] + p.drop_first().insert(j - 1, x) =~= p.insert(j, x));
    }
}

proof fn lemma_sort_desc_singleton(s: Seq<ScoredPr>)
    requires
        s.len() == 1,
    ensures
        spec_sort_desc(s) == s,
{
    assert(s.drop_last() =~= Seq::<ScoredPr>::empty());
    assert(spec_sort_desc(Seq::<ScoredPr>::empty()) == Seq::<ScoredPr>::empty());
    assert(spec_insert_desc(Seq::<ScoredPr>::empty(), s.last()) == seq![s.last()]);
    assert(seq![s.last()] =~= s);
}

/// Inserting into a descending sequence keeps it descending.
proof fn lemma_insert_desc_sorted(p: Seq<ScoredPr>, x: ScoredPr)
    requires
        sorted_desc(p),
    ensures
        sorted_desc(spec_insert_desc(p, x)),
{
    lemma_insert_pos_props(p, x);
    let pos = spec_insert_pos(p, x);
    let r = p.insert(pos, x);
    assert forall|i: int, j: int| 0 <= i < j < r.len() implies spec_key(#[trigger] r[i])
        >= spec_key(#[trigger] r[j]) by {
        if i < pos && j > pos {
            assert(r[i] == p[i] && r[j] == p[j - 1]);
        }
    }
}

/// The sorted output is descending in the ranking key.
/// This is the ordering half of the ranking law: after ranking, no pull
/// request ever precedes one with a strictly larger key.
pub proof fn lemma_sort_desc_sorted(s: Seq<ScoredPr>)
    ensures
        sorted_desc(spec_sort_desc(s)),
    decreases s.len(),
{
    if s.len() > 0 {
        lemma_sort_desc_sorted(s.drop_last());
        lemma_insert_desc_sorted(spec_sort_desc(s.drop_last()), s.last());
    }
}

/// The sorted output is a permutation of the input: ranking loses no pull
/// request and invents none.
pub proof fn lemma_sort_desc_permutes(s: Seq<ScoredPr>)
    ensures
        spec_sort_desc(s).to_multiset() == s.to_multiset(),
    decreases s.len(),
{
    broadcast use vstd::seq_lib::group_to_multiset_ensures;

    if s.len() > 0 {
        let d = s.drop_last();
        let x = s.last();
        lemma_sort_desc_permutes(d);
        lemma_insert_pos_props(spec_sort_desc(d), x);
        vstd::seq_lib::to_multiset_insert(
            spec_sort_desc(d),
            spec_insert_pos(spec_sort_desc(d), x),
            x,
        );
        assert(s =~= d.push(x));
        assert(spec_sort_desc(s).to_multiset() =~= s.to_multiset());
    } else {
        assert(spec_sort_desc(s) =~= s);
    }
}

/// The predicate "has ranking key `k`".
pub open spec fn key_is(k: int) -> spec_fn(ScoredPr) -> bool {
    |e: ScoredPr| spec_key(e) == k
}

/// A sequence none of whose elements satisfies `pred` filters to nothing.
proof fn lemma_filter_none(s: Seq<ScoredPr>, pred: spec_fn(ScoredPr) -> bool)
    requires
        forall|i: int| 0 <= i < s.len() ==> !pred(#[trigger] s[i]),
    ensures
        s.filter(pred) == Seq::<ScoredPr>::empty(),
    decreases s.len(),
{
    reveal(Seq::filter);
    if s.len() > 0 {
        lemma_filter_none(s.drop_last(), pred);
    }
}

/// Filtering a singleton keeps or drops its one element.
proof fn lemma_filter_singleton(x: ScoredPr, pred: spec_fn(ScoredPr) -> bool)
    ensures
        seq![x].filter(pred) == if pred(x) {
            seq![x]
        } else {
            Seq::<ScoredPr>::empty()
        },
{
    reveal(Seq::filter);
    assert(seq![x].drop_last() =~= Seq::<ScoredPr>::empty());
    assert(Seq::<ScoredPr>::empty().filter(pred) == Seq::<ScoredPr>::empty());
}

/// Inserting `x` into a descending sequence leaves every key class other
/// than `x`'s untouched and appends `x` to the end of its own class.
proof fn lemma_insert_desc_filter(p: Seq<ScoredPr>, x: ScoredPr, k: int)
    requires
        sorted_desc(p),
    ensures
        spec_insert_desc(p, x).filter(key_is(k)) == if spec_key(x) == k {
            p.filter(key_is(k)).push(x)
        } else {
            p.filter(key_is(k))
        },
{
    broadcast use vstd::prelude::Seq::filter_distributes_over_add;

    lemma_insert_pos_props(p, x);
    let pos = spec_insert_pos(p, x);
    let front = p.subrange(0, pos);
    let back = p.subrange(pos, p.len() as int);
    assert(p.insert(pos, x) =~= front + (seq![x] + back));
    assert(p =~= front + back);
    lemma_filter_singleton(x, key_is(k));
    if spec_key(x) == k {
        assert(forall|i: int| 0 <= i < back.len() ==> !key_is(k)(#[trigger] back[i]));
        lemma_filter_none(back, key_is(k));
        assert(front.filter(key_is(k)) + (seq![x] + back).filter(key_is(k)) =~= (front.filter(
            key_is(k),
        ) + back.filter(key_is(k))).push(x));
    } else {
        assert(front.filter(key_is(k)) + (seq![x] + back).filter(key_is(k)) =~= front.filter(
            key_is(k),
        ) + back.filter(key_is(k)));
    }
}

/// Stability of the ranking: for every key value, the pull requests with
/// that key appear in the output in exactly their input order.
pub proof fn lemma_sort_desc_stable(s: Seq<ScoredPr>, k: int)
    ensures
        spec_sort_desc(s).filter(key_is(k)) == s.filter(key_is(k)),
    decreases s.len(),
{
    broadcast use vstd::prelude::Seq::filter_distributes_over_add;

    if s.len() == 0 {
        reveal(Seq::filter);
    } else {
        let d = s.drop_last();
        let x = s.last();
        lemma_sort_desc_stable(d, k);
        lemma_sort_desc_sorted(d);
        lemma_insert_desc_filter(spec_sort_desc(d), x, k);
        lemma_filter_singleton(x, key_is(k));
        assert(s =~= d + seq![x]);
        if spec_key(x) == k {
            assert(d.filter(key_is(k)).push(x) =~= d.filter(key_is(k)) + seq![x].filter(
                key_is(k),
            ));
        } else {
            assert(d.filter(key_is(k)) =~= d.filter(key_is(k)) + seq![x].filter(key_is(k)));
        }
    }
}

impl ScoredPr {
    /// The executable ranking key of this scored pull request.
    pub fn key(&self) -> (k: i128)
        requires
            score_wf(self.score),
        ensures
            k == spec_key(*self),
    {
        self.score.rank_key()
    }
}

/// Sorts scored pull requests by descending ranking key with a stable
/// insertion sort: the result is exactly `spec_sort_desc` of the input.
pub fn sorted_ranked_prs(sprs: Vec<ScoredPr>) -> (r: Vec<ScoredPr>)
    requires
        forall|i: int| 0 <= i < sprs@.len() ==> score_wf(#[trigger] sprs@[i].score),
    ensures
        r@ == spec_sort_desc(sprs@),
{
    let ghost orig = sprs@;
    let mut v = sprs;
    if v.len() <= 1 {
        proof {
            if orig.len() == 1 {
                lemma_sort_desc_singleton(orig);
            } else {
                assert(spec_sort_desc(orig) =~= orig);
            }
        }
        return v;
    }
    let mut i: usize = 1;
    proof {
        lemma_sort_desc_singleton(orig.subrange(0, 1));
        assert(v@.subrange(0, 1) =~= orig.subrange(0, 1));
    }
    while i < v.len()
        invariant
            1 <= i <= v@.len(),
            v@.len() == orig.len(),
            forall|k: int| 0 <= k < v@.len() ==> score_wf(#[trigger] v@[k].score),
            v@.subrange(0, i as int) == spec_sort_desc(orig.subrange(0, i as int)),
            forall|k: int| i <= k < orig.len() ==> v@[k] == orig[k],
        decreases v@.len() - i,
    {
        let ghost pre = v@;
        let x = v.remove(i);
        proof {
            assert(x == orig[i as int]);
            assert(v@.subrange(0, i as int) =~= pre.subrange(0, i as int));
        }
        let key_x = x.key();
        let mut j: usize = 0;
        while j < i && v[j].key() >= key_x
            invariant
                0 <= j <= i,
                i < pre.len(),
                v@.len() == orig.len() - 1,
                v@ == pre.remove(i as int),
                forall|k: int| 0 <= k < v@.len() ==> score_wf(#[trigger] v@[k].score),
                score_wf(x.score),
                key_x == spec_key(x),
                forall|k: int| 0 <= k < j ==> spec_key(#[trigger] v@[k]) >= spec_key(x),
            decreases i - j,
        {
            j += 1;
        }
        let ghost sorted_prefix = v@.subrange(0, i as int);
        proof {
            lemma_insert_desc_at(sorted_prefix, x, j as int);
        }
        v.insert(j, x);
        proof {
            let i1 = i as int;
            let n = orig.len() as int;
            assert(v@.subrange(0, i1 + 1) =~= sorted_prefix.insert(j as int, x));
            assert(orig.subrange(0, i1 + 1).drop_last() =~= orig.subrange(0, i1));
            assert(orig.subrange(0, i1 + 1).last() == orig[i1]);
            assert(v@.subrange(0, i1 + 1) == spec_sort_desc(orig.subrange(0, i1 + 1)));
            assert(forall|k: int| i1 + 1 <= k < n ==> v@[k] == orig[k]);
        }
        i += 1;
    }
    proof {
        assert(v@ =~= v@.subrange(0, orig.len() as int));
        assert(orig.subrange(0, orig.len() as int) =~= orig);
    }
    v
}

} // verus!

//! Stable sort of alpha tiles by object index.
//!
//! Parallel building destroys per-object ordering of the alpha-tile buffer,
//! yet correct blending on the consumer side needs tiles in ascending
//! object-paint order. Packing therefore sorts the buffer by object index
//! before emitting it; the sort is stable, so tiles of one object keep their
//! relative buffer order.

use vstd::prelude::*;
use vstd::seq_lib::group_to_multiset_ensures;
use vstd::multiset::Multiset;
use vstd::seq_lib::lemma_multiset_commutative;
use crate::gpu_data::AlphaTile;

verus! {

/// `x` placed into `s` before the first record whose object index exceeds
/// `x`'s: the insertion step of a stable insertion sort.
pub open spec fn spec_insert_sorted(s: Seq<AlphaTile>, x: AlphaTile) -> Seq<AlphaTile>
    decreases s.len(),
{
    if s.len() == 0 {
        seq![x]
    } else if s[0].object_index <= x.object_index {
        seq![s[0]] + spec_insert_sorted(s.drop_first(), x)
    } else {
        seq![x] + s
    }
}

/// Stable sort by object index: records are inserted in buffer order, each
/// after every already-placed record whose object index is not above its own.
pub open spec fn spec_stable_sort(s: Seq<AlphaTile>) -> Seq<AlphaTile>
    decreases s.len(),
{
    if s.len() == 0 {
        Seq::empty()
    } else {
        spec_insert_sorted(spec_stable_sort(s.drop_last()), s.last())
    }
}

/// Ascending object-index order.
pub open spec fn spec_sorted_by_object(s: Seq<AlphaTile>) -> bool {
    forall|i: int, j: int| 0 <= i <= j < s.len() ==> s[i].object_index <= s[j].object_index
}

/// The records attributed to the object at index `k`.
pub open spec fn has_object(k: u16) -> spec_fn(AlphaTile) -> bool {
    |t: AlphaTile| t.object_index == k
}

proof fn lemma_insert_sorted_len(s: Seq<AlphaTile>, x: AlphaTile)
    ensures
        spec_insert_sorted(s, x).len() == s.len() + 1,
    decreases s.len(),
{
    if s.len() != 0 && s[0].object_index <= x.object_index {
        lemma_insert_sorted_len(s.drop_first(), x);
    }
}

proof fn lemma_insert_sorted_multiset(s: Seq<AlphaTile>, x: AlphaTile)
    ensures
        spec_insert_sorted(s, x).to_multiset() =~= s.to_multiset().insert(x),
    decreases s.len(),
{
    broadcast use group_to_multiset_ensures;

    if s.len() == 0 {
        assert(seq![x] =~= Seq::<AlphaTile>::empty().push(x));
        assert(s.to_multiset() =~= Multiset::<AlphaTile>::empty());
    } else if s[0].object_index <= x.object_index {
        let d = s.drop_first();
        lemma_insert_sorted_multiset(d, x);
        lemma_multiset_commutative(seq![s[0]], spec_insert_sorted(d, x));
        lemma_multiset_commutative(seq![s[0]], d);
        assert(s =~= seq![s[0]] + d);
        assert(seq![s[0]] =~= Seq::<AlphaTile>::empty().push(s[0]));
        assert(spec_insert_sorted(s, x).to_multiset() =~= s.to_multiset().insert(x));
    } else {
        lemma_multiset_commutative(seq![x], s);
        assert(seq![x] =~= Seq::<AlphaTile>::empty().push(x));
        assert(spec_insert_sorted(s, x).to_multiset() =~= s.to_multiset().insert(x));
    }
}

proof fn lemma_insert_sorted_sorted(s: Seq<AlphaTile>, x: AlphaTile)
    requires
        spec_sorted_by_object(s),
    ensures
        spec_sorted_by_object(spec_insert_sorted(s, x)),
    decreases s.len(),
{
    broadcast use group_to_multiset_ensures;

    if s.len() == 0 {
    } else if s[0].object_index <= x.object_index {
        let d = s.drop_first();
        let t = spec_insert_sorted(d, x);
        lemma_insert_sorted_sorted(d, x);
        lemma_insert_sorted_multiset(d, x);
        let r = spec_insert_sorted(s, x);
        assert forall|i: int, j: int| 0 <= i <= j < r.len() implies r[i].object_index
            <= r[j].object_index by {
            if i == 0 && j > 0 {
                // every record of t is x or comes from d, and s[0] is below both
                assert(t.contains(t[j - 1]));
                assert(t.to_multiset().count(t[j - 1]) > 0);
                if t[j - 1] != x {
                    assert(d.to_multiset().count(t[j - 1]) > 0);
                    assert(d.contains(t[j - 1]));
                    let w = choose|w: int| 0 <= w < d.len() && d[w] == t[j - 1];
                    assert(s[0].object_index <= s[w + 1].object_index);
                }
            }
        }
    } else {
    }
}

/// Inserting a record whose first strictly greater neighbour stands at `j`
/// places it exactly at `j`.
proof fn lemma_insert_sorted_at(s: Seq<AlphaTile>, x: AlphaTile, j: int)
    requires
        0 <= j <= s.len(),
        forall|k: int| 0 <= k < j ==> s[k].object_index <= x.object_index,
        j < s.len() ==> s[j].object_index > x.object_index,
    ensures
        spec_insert_sorted(s, x) =~= s.subrange(0, j).push(x) + s.subrange(j, s.len() as int),
    decreases j,
{
    if j == 0 {
    } else {
        let d = s.drop_first();
        lemma_insert_sorted_at(d, x, j - 1);
    }
}

proof fn lemma_insert_sorted_filter(s: Seq<AlphaTile>, x: AlphaTile, k: u16)
    requires
        spec_sorted_by_object(s),
    ensures
        x.object_index == k ==> spec_insert_sorted(s, x).filter(has_object(k)) =~= s.filter(
            has_object(k),
        ).push(x),
        x.object_index != k ==> spec_insert_sorted(s, x).filter(has_object(k)) =~= s.filter(
            has_object(k),
        ),
    decreases s.len(),
{
    broadcast use vstd::seq_lib::group_seq_lib_default;

    let p = has_object(k);
    lemma_filter_singleton(x, k);
    if s.len() == 0 {
        reveal(Seq::filter);
        assert(seq![x] =~= Seq::<AlphaTile>::empty() + seq![x]);
        assert(Seq::<AlphaTile>::empty().filter(p) =~= Seq::<AlphaTile>::empty());
    } else if s[0].object_index <= x.object_index {
        let d = s.drop_first();
        lemma_insert_sorted_filter(d, x, k);
        lemma_filter_singleton(s[0], k);
        assert(s =~= seq![s[0]] + d);
        assert(spec_insert_sorted(s, x) == seq![s[0]] + spec_insert_sorted(d, x));
        if x.object_index == k {
            assert(seq![s[0]].filter(p) + d.filter(p).push(x) =~= (seq![s[0]].filter(p) + d.filter(
                p,
            )).push(x));
        }
    } else {
        // every record of s exceeds x's object index
        if x.object_index == k {
            assert forall|i: int| 0 <= i < s.len() implies !p(s[i]) by {
                assert(s[0].object_index <= s[i].object_index);
            }
            s.lemma_all_neg_filter_empty(p);
            assert(spec_insert_sorted(s, x) == seq![x] + s);
            assert(seq![x] + s =~= s.insert(0, x));
            assert(seq![x].filter(p) + s.filter(p) =~= s.filter(p).push(x));
        }
    }
}

/// A one-record sequence filters to itself or to nothing.
proof fn lemma_filter_singleton(x: AlphaTile, k: u16)
    ensures
        x.object_index == k ==> seq![x].filter(has_object(k)) =~= seq![x],
        x.object_index != k ==> seq![x].filter(has_object(k)) =~= Seq::<AlphaTile>::empty(),
{
    reveal(Seq::filter);
    let s = seq![x];
    assert(s.drop_last() =~= Seq::<AlphaTile>::empty());
    assert(s.drop_last() == Seq::<AlphaTile>::empty());
    assert(Seq::<AlphaTile>::empty().filter(has_object(k)) == Seq::<AlphaTile>::empty());
    assert(s.last() == x);
    if x.object_index == k {
        assert(has_object(k)(x));
        assert(s.filter(has_object(k)) == Seq::<AlphaTile>::empty().push(x));
        assert(Seq::<AlphaTile>::empty().push(x) =~= s);
    } else {
        assert(!(has_object(k)(x)));
        assert(s.filter(has_object(k)) == Seq::<AlphaTile>::empty());
    }
}

/// The sort returns a sequence of the same length, in ascending object-index
/// order, holding exactly the records of its input.
pub proof fn lemma_stable_sort_sorted(s: Seq<AlphaTile>)
    ensures
        spec_stable_sort(s).len() == s.len(),
        spec_sorted_by_object(spec_stable_sort(s)),
        spec_stable_sort(s).to_multiset() =~= s.to_multiset(),
    decreases s.len(),
{
    broadcast use group_to_multiset_ensures;

    if s.len() != 0 {
        let d = s.drop_last();
        lemma_stable_sort_sorted(d);
        lemma_insert_sorted_len(spec_stable_sort(d), s.last());
        lemma_insert_sorted_sorted(spec_stable_sort(d), s.last());
        lemma_insert_sorted_multiset(spec_stable_sort(d), s.last());
        assert(s =~= d.push(s.last()));
    }
}

/// Stability: for every object index, the records attributed to it come out
/// of the sort exactly as they stood in the buffer.
pub proof fn lemma_stable_sort_stable(s: Seq<AlphaTile>, k: u16)
    ensures
        spec_stable_sort(s).filter(has_object(k)) =~= s.filter(has_object(k)),
    decreases s.len(),
{
    broadcast use vstd::seq_lib::group_seq_lib_default;

    let p = has_object(k);
    if s.len() == 0 {
        reveal(Seq::filter);
    } else {
        let d = s.drop_last();
        let x = s.last();
        lemma_stable_sort_stable(d, k);
        lemma_stable_sort_sorted(d);
        lemma_insert_sorted_filter(spec_stable_sort(d), x, k);
        lemma_filter_singleton(x, k);
        assert(s =~= d + seq![x]);
        if x.object_index == k {
            assert(d.filter(p) + seq![x].filter(p) =~= d.filter(p).push(x));
        } else {
            assert(d.filter(p) + seq![x].filter(p) =~= d.filter(p));
        }
    }
}

/// Sorts the alpha tiles by object index, stably: tiles of one object keep
/// their relative order.
pub fn sort_alpha_tiles(tiles: &Vec<AlphaTile>) -> (r: Vec<AlphaTile>)
    ensures
        r@ == spec_stable_sort(tiles@),
{
    let mut r: Vec<AlphaTile> = Vec::new();
    let mut i: usize = 0;
    proof {
        assert(tiles@.take(0) =~= Seq::<AlphaTile>::empty());
    }
    while i < tiles.len()
        invariant
            i <= tiles@.len(),
            r@ == spec_stable_sort(tiles@.take(i as int)),
        decreases tiles@.len() - i,
    {
        let x = tiles[i];
        let ghost prefix = tiles@.take(i as int);
        proof {
            lemma_stable_sort_sorted(prefix);
        }
        let mut j: usize = 0;
        while j < r.len() && r[j].object_index <= x.object_index
            invariant
                j <= r@.len(),
                forall|m: int| 0 <= m < j ==> r@[m].object_index <= x.object_index,
            decreases r@.len() - j,
        {
            j = j + 1;
        }
        proof {
            lemma_insert_sorted_at(r@, x, j as int);
            assert(r@.insert(j as int, x) =~= r@.subrange(0, j as int).push(x) + r@.subrange(
                j as int,
                r@.len() as int,
            ));
            assert(tiles@.take(i + 1).drop_last() =~= prefix);
            assert(tiles@.take(i + 1).last() == x);
        }
        r.insert(j, x);
        i = i + 1;
    }
    proof {
        assert(tiles@.take(tiles@.len() as int) =~= tiles@);
    }
    r
}

} // verus!

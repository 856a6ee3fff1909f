//! Laws of the model, stated and proved once for every clustering: the
//! clusters of a text partition it, slices compose, an empty range is
//! empty, and the count agrees with the division.

use vstd::prelude::*;
use crate::cluster::cluster_start;
use crate::cluster::concat_all;
use crate::cluster::lemma_concat_all_add;
use crate::cluster::lemma_concat_all_push;
use crate::cluster::slice_clusters;
use crate::segment::grapheme_count;
use crate::segment::graphemes_of;

verus! {

/// Two cluster sequences that agree on their first `i` entries place
/// cluster `i` at the same offset.
proof fn lemma_start_agree(a: Seq<Seq<char>>, b: Seq<Seq<char>>, i: int)
    requires
        0 <= i <= a.len(),
        i <= b.len(),
        forall|j: int| 0 <= j < i ==> a[j] == b[j],
    ensures
        cluster_start(a, i) == cluster_start(b, i),
    decreases i,
{
    if i > 0 {
        lemma_start_agree(a, b, i - 1);
    }
}

/// Cluster offsets never decrease from left to right.
pub proof fn lemma_start_nondecreasing(cs: Seq<Seq<char>>, i: int, j: int)
    requires
        0 <= i <= j <= cs.len(),
    ensures
        cluster_start(cs, i) <= cluster_start(cs, j),
    decreases j - i,
{
    if i < j {
        lemma_start_nondecreasing(cs, i, j - 1);
    }
}

/// The offset of cluster `i` is the length of the text the clusters
/// before it join to.
pub proof fn lemma_start_is_prefix_len(cs: Seq<Seq<char>>, i: int)
    requires
        0 <= i <= cs.len(),
    ensures
        cluster_start(cs, i) == concat_all(cs.subrange(0, i)).len(),
    decreases i,
{
    if i == 0 {
        assert(cs.subrange(0, 0) =~= Seq::<Seq<char>>::empty());
    } else {
        lemma_start_is_prefix_len(cs, i - 1);
        assert(cs.subrange(0, i) =~= cs.subrange(0, i - 1).push(cs[i - 1]));
        lemma_concat_all_push(cs.subrange(0, i - 1), cs[i - 1]);
    }
}

/// The offset past the last cluster is the length of the joined text.
pub proof fn lemma_start_total_len(cs: Seq<Seq<char>>)
    ensures
        cluster_start(cs, cs.len() as int) == concat_all(cs).len(),
{
    lemma_start_is_prefix_len(cs, cs.len() as int);
    assert(cs.subrange(0, cs.len() as int) =~= cs);
}

/// Law (boundary offsets): where no cluster is empty, the cluster
/// offsets strictly increase, so together with `lemma_start_total_len`
/// they form a strictly increasing boundary set from 0 to the text's
/// length.
pub proof fn lemma_start_strictly_increasing(cs: Seq<Seq<char>>, i: int)
    requires
        0 <= i < cs.len(),
        cs[i].len() > 0,
    ensures
        cluster_start(cs, i) < cluster_start(cs, i + 1),
{
}

/// Law (partition, contiguity): in a text joined from clusters, cluster
/// `i` stands exactly at the contiguous character range
/// `[cluster_start(cs, i), cluster_start(cs, i + 1))`, in original order.
pub proof fn lemma_cluster_in_place(cs: Seq<Seq<char>>, t: Seq<char>, i: int)
    requires
        concat_all(cs) == t,
        0 <= i < cs.len(),
    ensures
        0 <= cluster_start(cs, i),
        cluster_start(cs, i + 1) == cluster_start(cs, i) + cs[i].len(),
        cluster_start(cs, i + 1) <= t.len(),
        t.subrange(cluster_start(cs, i), cluster_start(cs, i + 1)) == cs[i],
{
    let n: int = cs.len() as int;
    let a: Seq<Seq<char>> = cs.subrange(0, i);
    let m: Seq<Seq<char>> = cs.subrange(i, i + 1);
    let z: Seq<Seq<char>> = cs.subrange(i + 1, n);
    assert(cs =~= (a + m) + z);
    lemma_concat_all_add(a + m, z);
    lemma_concat_all_add(a, m);
    assert(m.drop_last() =~= Seq::<Seq<char>>::empty());
    assert(concat_all(m.drop_last()) == Seq::<char>::empty());
    assert(m.last() == cs[i]);
    assert(concat_all(m) == concat_all(m.drop_last()) + m.last());
    assert(concat_all(m) =~= cs[i]);
    lemma_start_nondecreasing(cs, 0, i);
    lemma_start_is_prefix_len(cs, i);
    lemma_start_total_len(cs);
    lemma_start_nondecreasing(cs, i + 1, n);
    assert(t =~= concat_all(a) + cs[i] + concat_all(z));
    assert(t.subrange(cluster_start(cs, i), cluster_start(cs, i + 1)) =~= cs[i]);
}

/// Law (partition, coverage): every character position of a text joined
/// from clusters falls inside the range of exactly one cluster.
pub proof fn lemma_partition(cs: Seq<Seq<char>>, t: Seq<char>, p: int)
    requires
        concat_all(cs) == t,
        0 <= p < t.len(),
    ensures
        exists|i: int|
            0 <= i < cs.len() && (#[trigger] cluster_start(cs, i)) <= p < cluster_start(
                cs,
                i + 1,
            ),
        forall|i: int, j: int|
            0 <= i < cs.len() && 0 <= j < cs.len() && (#[trigger] cluster_start(cs, i)) <= p
                < cluster_start(cs, i + 1) && (#[trigger] cluster_start(cs, j)) <= p
                < cluster_start(cs, j + 1) ==> i == j,
    decreases cs.len(),
{
    let n: int = cs.len() as int;
    lemma_start_total_len(cs);
    if n > 0 {
        let s: int = cluster_start(cs, n - 1);
        if p >= s {
            assert(cluster_start(cs, n - 1) <= p < cluster_start(cs, n));
        } else {
            let cs2: Seq<Seq<char>> = cs.drop_last();
            lemma_start_agree(cs, cs2, n - 1);
            lemma_start_total_len(cs2);
            lemma_partition(cs2, concat_all(cs2), p);
            let w: int = choose|w: int|
                0 <= w < cs2.len() && (#[trigger] cluster_start(cs2, w)) <= p < cluster_start(
                    cs2,
                    w + 1,
                );
            lemma_start_agree(cs, cs2, w);
            lemma_start_agree(cs, cs2, w + 1);
            assert(cluster_start(cs, w) <= p < cluster_start(cs, w + 1));
        }
        assert forall|i: int, j: int|
            0 <= i < cs.len() && 0 <= j < cs.len() && (#[trigger] cluster_start(cs, i)) <= p
                < cluster_start(cs, i + 1) && (#[trigger] cluster_start(cs, j)) <= p
                < cluster_start(cs, j + 1) implies i == j by {
            if i < j {
                lemma_start_nondecreasing(cs, i + 1, j);
            }
            if j < i {
                lemma_start_nondecreasing(cs, j + 1, i);
            }
        }
    }
}

/// Law (slice monotonicity): slicing `[i, k)` is slicing `[i, j)` and
/// then `[j, k)`, joined.
pub proof fn lemma_slice_monotone(cs: Seq<Seq<char>>, i: int, j: int, k: int)
    requires
        0 <= i <= j <= k <= cs.len(),
    ensures
        slice_clusters(cs, i, k) == slice_clusters(cs, i, j) + slice_clusters(cs, j, k),
{
    assert(cs.subrange(i, k) =~= cs.subrange(i, j) + cs.subrange(j, k));
    lemma_concat_all_add(cs.subrange(i, j), cs.subrange(j, k));
}

/// Law (empty range): slicing `[i, i)` yields the empty text.
pub proof fn lemma_empty_range(cs: Seq<Seq<char>>, i: int)
    requires
        0 <= i <= cs.len(),
    ensures
        slice_clusters(cs, i, i) == Seq::<char>::empty(),
{
    assert(cs.subrange(i, i) =~= Seq::<Seq<char>>::empty());
}

/// Law (count consistency): the cluster count of a text is the length of
/// its grapheme division.
pub proof fn lemma_count_consistency(t: Seq<char>)
    ensures
        grapheme_count(t) == graphemes_of(t).len(),
{
}

} // verus!

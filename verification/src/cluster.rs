//! The mathematical model of clustered text: a text is a sequence of
//! characters, a clustering of it is a sequence of character sequences,
//! and the model says how clusters join back into text and where each
//! cluster starts.

use vstd::prelude::*;

verus! {

/// The character sequences of a vector of strings, in order.
pub open spec fn views_of(gs: Seq<String>) -> Seq<Seq<char>> {
    gs.map_values(|g: String| g@)
}

/// Concatenation of a sequence of character sequences, left to right.
pub open spec fn concat_all(cs: Seq<Seq<char>>) -> Seq<char>
    decreases cs.len(),
{
    if cs.len() == 0 {
        Seq::empty()
    } else {
        concat_all(cs.drop_last()) + cs.last()
    }
}

/// The characters of clusters `[start, end)`, joined in order.
pub open spec fn slice_clusters(cs: Seq<Seq<char>>, start: int, end: int) -> Seq<char> {
    concat_all(cs.subrange(start, end))
}

/// Offset of the first character of cluster `i` in the joined text.
pub open spec fn cluster_start(cs: Seq<Seq<char>>, i: int) -> int
    recommends
        0 <= i <= cs.len(),
    decreases i,
{
    if i <= 0 {
        0
    } else {
        cluster_start(cs, i - 1) + cs[i - 1].len()
    }
}

/// Appending one more cluster appends its characters.
pub proof fn lemma_concat_all_push(cs: Seq<Seq<char>>, x: Seq<char>)
    ensures
        concat_all(cs.push(x)) == concat_all(cs) + x,
{
    assert(cs.push(x).drop_last() =~= cs);
    assert(cs.push(x).last() == x);
}

/// Concatenation distributes over appending two sequences of clusters.
pub proof fn lemma_concat_all_add(a: Seq<Seq<char>>, b: Seq<Seq<char>>)
    ensures
        concat_all(a + b) == concat_all(a) + concat_all(b),
    decreases b.len(),
{
    if b.len() == 0 {
        assert(a + b =~= a);
        assert(concat_all(a) + concat_all(b) =~= concat_all(a));
    } else {
        assert((a + b).drop_last() =~= a + b.drop_last());
        lemma_concat_all_add(a, b.drop_last());
        assert((a + b).last() == b.last());
        assert(concat_all(a) + concat_all(b.drop_last()) + b.last() =~= concat_all(a) + (
        concat_all(b.drop_last()) + b.last()));
    }
}

/// Extending a cluster range by one cluster appends that cluster's characters.
pub proof fn lemma_slice_clusters_extend(cs: Seq<Seq<char>>, start: int, i: int)
    requires
        0 <= start <= i < cs.len(),
    ensures
        slice_clusters(cs, start, i + 1) == slice_clusters(cs, start, i) + cs[i],
{
    assert(cs.subrange(start, i + 1) =~= cs.subrange(start, i).push(cs[i]));
    lemma_concat_all_push(cs.subrange(start, i), cs[i]);
}

/// The range of all clusters joins to the full concatenation.
pub proof fn lemma_slice_clusters_full(cs: Seq<Seq<char>>)
    ensures
        slice_clusters(cs, 0, cs.len() as int) == concat_all(cs),
{
    assert(cs.subrange(0, cs.len() as int) =~= cs);
}

} // verus!

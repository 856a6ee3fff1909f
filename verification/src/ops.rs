//! Index operations over grapheme clusters: slicing a text by a cluster
//! range and truncating it to a maximum number of clusters.

use vstd::prelude::*;
use vstd::string::StringExecFns;
use crate::cluster::lemma_slice_clusters_extend;
use crate::cluster::lemma_slice_clusters_full;
use crate::cluster::slice_clusters;
use crate::cluster::views_of;
use crate::segment::grapheme_count;
use crate::segment::graphemes_of;
use crate::segment::split_clusters;

verus! {

/// The one domain error: a requested cluster range is invalid.
#[derive(Clone, Copy, Debug, PartialEq, Eq, Structural)]
pub enum GraphemeError {
    IndexOutOfRange,
}

/// A cluster range `[start, end)` that text `t` accepts: within bounds
/// and not inverted.
pub open spec fn valid_range(t: Seq<char>, start: int, end: int) -> bool {
    start <= end && end <= grapheme_count(t)
}

/// Joins clusters `[start, end)` of `gs` into one string.
fn concat_range(gs: &Vec<String>, start: usize, end: usize) -> (r: String)
    requires
        start <= end <= gs@.len(),
    ensures
        r@ == slice_clusters(views_of(gs@), start as int, end as int),
{
    let mut out = String::new();
    let mut i: usize = start;
    proof {
        assert(views_of(gs@).subrange(start as int, start as int) =~= Seq::<Seq<char>>::empty());
    }
    while i < end
        invariant
            start <= i <= end <= gs@.len(),
            out@ == slice_clusters(views_of(gs@), start as int, i as int),
        decreases end - i,
    {
        proof {
            lemma_slice_clusters_extend(views_of(gs@), start as int, i as int);
            assert(views_of(gs@)[i as int] == gs@[i as int]@);
        }
        out.append(gs[i].as_str());
        i = i + 1;
    }
    out
}

/// Extracts the substring made of grapheme clusters `[start, end)`.
///
/// Fails with `IndexOutOfRange` exactly when `start > end` or `end`
/// exceeds the cluster count; `start == end` is valid and yields the
/// empty string.
pub fn slice(text: &str, start: usize, end: usize) -> (r: Result<String, GraphemeError>)
    ensures
        r is Ok <==> valid_range(text@, start as int, end as int),
        r matches Ok(s) ==> s@ == slice_clusters(
            graphemes_of(text@),
            start as int,
            end as int,
        ),
        r matches Err(e) ==> e == GraphemeError::IndexOutOfRange,
{
    let gs = split_clusters(text);
    proof {
        assert(views_of(gs@).len() == gs@.len());
    }
    if start > end || end > gs.len() {
        Err(GraphemeError::IndexOutOfRange)
    } else {
        Ok(concat_range(&gs, start, end))
    }
}

/// Keeps at most `max_len` grapheme clusters of the text.
///
/// When `max_len` is at least the cluster count the whole text comes
/// back unchanged; otherwise the result is the clusters `[0, max_len)`.
pub fn truncate(text: &str, max_len: usize) -> (r: String)
    ensures
        max_len >= grapheme_count(text@) ==> r@ == text@,
        max_len < grapheme_count(text@) ==> r@ == slice_clusters(
            graphemes_of(text@),
            0,
            max_len as int,
        ),
{
    let gs = split_clusters(text);
    proof {
        assert(views_of(gs@).len() == gs@.len());
    }
    if max_len >= gs.len() {
        let r = concat_range(&gs, 0, gs.len());
        proof {
            lemma_slice_clusters_full(views_of(gs@));
        }
        r
    } else {
        concat_range(&gs, 0, max_len)
    }
}

} // verus!

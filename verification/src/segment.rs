//! Segmentation of a string into grapheme clusters, and the cluster count.

use vstd::prelude::*;
use unicode_segmentation::UnicodeSegmentation;
use crate::cluster::concat_all;
use crate::cluster::views_of;

verus! {

/// The grapheme-cluster division of a character sequence: the ordered
/// sequence of extended grapheme clusters of UAX #29.  The boundary rules
/// take pages to state, so the division itself is left uninterpreted; the
/// facts the library relies on stand on `split_clusters` below.
pub uninterp spec fn graphemes_of(t: Seq<char>) -> Seq<Seq<char>>;

/// Number of grapheme clusters in a character sequence.
pub open spec fn grapheme_count(t: Seq<char>) -> nat {
    graphemes_of(t).len()
}

/// Relies on `unicode_segmentation::UnicodeSegmentation::graphemes` with
/// extended clusters: its iterator walks boundary to boundary through the
/// input and yields the clusters in order as consecutive, non-empty
/// substrings that together cover the input exactly, and the division
/// depends on the input's characters alone.
#[verifier::external_body]
pub(crate) fn split_clusters(text: &str) -> (r: Vec<String>)
    ensures
        views_of(r@) == graphemes_of(text@),
        concat_all(views_of(r@)) == text@,
        forall|i: int| 0 <= i < r@.len() ==> (#[trigger] r@[i])@.len() > 0,
{
    UnicodeSegmentation::graphemes(text, true).map(String::from).collect()
}

/// Splits text into its grapheme clusters, in left-to-right order.
///
/// The concatenation of the returned clusters is the input text, and no
/// cluster is empty.
pub fn split(text: &str) -> (r: Vec<String>)
    ensures
        views_of(r@) == graphemes_of(text@),
        r@.len() == grapheme_count(text@),
        concat_all(views_of(r@)) == text@,
        forall|i: int| 0 <= i < r@.len() ==> (#[trigger] r@[i])@.len() > 0,
{
    let gs = split_clusters(text);
    proof {
        assert(views_of(gs@).len() == gs@.len());
    }
    gs
}

/// Counts the grapheme clusters of the text.
pub fn grapheme_len(text: &str) -> (r: usize)
    ensures
        r == grapheme_count(text@),
{
    let gs = split_clusters(text);
    proof {
        assert(views_of(gs@).len() == gs@.len());
    }
    gs.len()
}

} // verus!

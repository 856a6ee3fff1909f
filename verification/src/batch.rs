//! Batch operations: each single-string operation applied across a
//! collection of strings by parallel workers, with results in input order.

use vstd::prelude::*;
use rayon::iter::IntoParallelRefIterator;
use rayon::iter::ParallelIterator;
use crate::cluster::concat_all;
use crate::cluster::slice_clusters;
use crate::cluster::views_of;
use crate::ops::GraphemeError;
use crate::ops::slice;
use crate::ops::valid_range;
use crate::ops::truncate;
use crate::segment::grapheme_count;
use crate::segment::graphemes_of;
use crate::segment::grapheme_len;
use crate::segment::split;

verus! {

/// Relies on rayon's `par_iter`/`map`/`collect`: an indexed parallel
/// iterator collects each mapped item at the position of its input, so the
/// result holds, in input order, what the library's `split` returns per
/// item; the closure only calls `split`.
#[verifier::external_body]
fn par_split_each(texts: &Vec<String>) -> (r: Vec<Vec<String>>)
    ensures
        r@.len() == texts@.len(),
        forall|i: int|
            0 <= i < r@.len() ==> views_of((#[trigger] r@[i])@) == graphemes_of(texts@[i]@),
        forall|i: int|
            0 <= i < r@.len() ==> concat_all(views_of((#[trigger] r@[i])@)) == texts@[i]@,
{
    texts.par_iter().map(|t| split(t.as_str())).collect()
}

/// Relies on rayon's `par_iter`/`map`/`collect`: an indexed parallel
/// iterator collects each mapped item at the position of its input, so the
/// result holds, in input order, what the library's `grapheme_len` returns
/// per item; the closure only calls `grapheme_len`.
#[verifier::external_body]
fn par_grapheme_len_each(texts: &Vec<String>) -> (r: Vec<usize>)
    ensures
        r@.len() == texts@.len(),
        forall|i: int| 0 <= i < r@.len() ==> #[trigger] r@[i] == grapheme_count(texts@[i]@),
{
    texts.par_iter().map(|t| grapheme_len(t.as_str())).collect()
}

/// Relies on rayon's `par_iter`/`map`/`collect`: an indexed parallel
/// iterator collects each mapped item at the position of its input, so the
/// result holds, in input order, what the library's `slice` returns per
/// item; the closure only calls `slice`.
#[verifier::external_body]
fn par_slice_each(texts: &Vec<String>, start: usize, end: usize) -> (r: Vec<
    Result<String, GraphemeError>,
>)
    ensures
        r@.len() == texts@.len(),
        forall|i: int|
            0 <= i < r@.len() ==> ((#[trigger] r@[i]) is Ok <==> valid_range(
                texts@[i]@,
                start as int,
                end as int,
            )),
        forall|i: int|
            0 <= i < r@.len() ==> ((#[trigger] r@[i]) matches Ok(s) ==> s@ == slice_clusters(
                graphemes_of(texts@[i]@),
                start as int,
                end as int,
            )),
        forall|i: int|
            0 <= i < r@.len() ==> ((#[trigger] r@[i]) matches Err(e) ==> e
                == GraphemeError::IndexOutOfRange),
{
    texts.par_iter().map(|t| slice(t.as_str(), start, end)).collect()
}

/// Relies on rayon's `par_iter`/`map`/`collect`: an indexed parallel
/// iterator collects each mapped item at the position of its input, so the
/// result holds, in input order, what the library's `truncate` returns per
/// item; the closure only calls `truncate`.
#[verifier::external_body]
fn par_truncate_each(texts: &Vec<String>, max_len: usize) -> (r: Vec<String>)
    ensures
        r@.len() == texts@.len(),
        forall|i: int|
            0 <= i < r@.len() ==> (max_len >= grapheme_count(texts@[i]@) ==> (#[trigger] r@[i])@
                == texts@[i]@),
        forall|i: int|
            0 <= i < r@.len() ==> (max_len < grapheme_count(texts@[i]@) ==> (#[trigger] r@[i])@
                == slice_clusters(graphemes_of(texts@[i]@), 0, max_len as int)),
{
    texts.par_iter().map(|t| truncate(t.as_str(), max_len)).collect()
}

/// Splits every text of the batch into its grapheme clusters, in parallel;
/// the results come back in input order.
pub fn batch_split(texts: Vec<String>) -> (r: Vec<Vec<String>>)
    ensures
        r@.len() == texts@.len(),
        forall|i: int|
            0 <= i < r@.len() ==> views_of((#[trigger] r@[i])@) == graphemes_of(texts@[i]@),
        forall|i: int|
            0 <= i < r@.len() ==> concat_all(views_of((#[trigger] r@[i])@)) == texts@[i]@,
{
    par_split_each(&texts)
}

/// Counts the grapheme clusters of every text of the batch, in parallel;
/// the counts come back in input order.
pub fn batch_grapheme_len(texts: Vec<String>) -> (r: Vec<usize>)
    ensures
        r@.len() == texts@.len(),
        forall|i: int| 0 <= i < r@.len() ==> #[trigger] r@[i] == grapheme_count(texts@[i]@),
{
    par_grapheme_len_each(&texts)
}

/// Slices every text of the batch by the same cluster range, in parallel.
///
/// The whole batch fails with one `IndexOutOfRange` as soon as the range
/// is invalid for any item; valid items' results are then discarded.  On
/// success the substrings come back in input order.
pub fn batch_slice(texts: Vec<String>, start: usize, end: usize) -> (r: Result<
    Vec<String>,
    GraphemeError,
>)
    ensures
        r is Ok <==> forall|i: int|
            0 <= i < texts@.len() ==> valid_range(
                (#[trigger] texts@[i])@,
                start as int,
                end as int,
            ),
        r matches Ok(v) ==> v@.len() == texts@.len(),
        r matches Ok(v) ==> forall|i: int|
            0 <= i < v@.len() ==> (#[trigger] v@[i])@ == slice_clusters(
                graphemes_of(texts@[i]@),
                start as int,
                end as int,
            ),
        r matches Err(e) ==> e == GraphemeError::IndexOutOfRange,
{
    let results = par_slice_each(&texts, start, end);
    let mut out: Vec<String> = Vec::new();
    let mut i: usize = 0;
    while i < results.len()
        invariant
            results@.len() == texts@.len(),
            out@.len() == i as int,
            i <= results@.len(),
            forall|j: int|
                0 <= j < results@.len() ==> ((#[trigger] results@[j]) is Ok <==> valid_range(
                    texts@[j]@,
                    start as int,
                    end as int,
                )),
            forall|j: int|
                0 <= j < results@.len() ==> ((#[trigger] results@[j]) matches Ok(s) ==> s@
                    == slice_clusters(graphemes_of(texts@[j]@), start as int, end as int)),
            forall|j: int| 0 <= j < i as int ==> (#[trigger] results@[j]) is Ok,
            forall|j: int|
                0 <= j < i as int ==> (#[trigger] out@[j])@ == slice_clusters(
                    graphemes_of(texts@[j]@),
                    start as int,
                    end as int,
                ),
        decreases results@.len() - i,
    {
        let item = &results[i];
        match item {
            Ok(s) => {
                out.push(s.clone());
            },
            Err(_) => {
                proof {
                    assert(!valid_range(texts@[i as int]@, start as int, end as int));
                }
                return Err(GraphemeError::IndexOutOfRange);
            },
        }
        i = i + 1;
    }
    proof {
        assert forall|j: int|
            0 <= j < texts@.len() implies valid_range(
            (#[trigger] texts@[j])@,
            start as int,
            end as int,
        ) by {
            assert(results@[j] is Ok);
        }
    }
    Ok(out)
}

/// Truncates every text of the batch to at most `max_len` grapheme
/// clusters, in parallel; the results come back in input order.
pub fn batch_truncate(texts: Vec<String>, max_len: usize) -> (r: Vec<String>)
    ensures
        r@.len() == texts@.len(),
        forall|i: int|
            0 <= i < r@.len() ==> (max_len >= grapheme_count(texts@[i]@) ==> (#[trigger] r@[i])@
                == texts@[i]@),
        forall|i: int|
            0 <= i < r@.len() ==> (max_len < grapheme_count(texts@[i]@) ==> (#[trigger] r@[i])@
                == slice_clusters(graphemes_of(texts@[i]@), 0, max_len as int)),
{
    par_truncate_each(&texts, max_len)
}

} // verus!

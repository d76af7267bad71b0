//! Properties of the filter that relate its parts or hold of every input.
use vstd::prelude::*;

use crate::filter::{cleaned, lemma_padded_index, padded, window_at};
use crate::window::{
    is_outlier, neighbour_max, neighbour_min, saturate_i32, window_avg, window_distance,
    window_value,
};

verus! {

/// A replacement is always the midpoint of the neighbours, which lies between
/// their smallest and largest value and so within the 32-bit range: the
/// saturating narrowing never has to clamp, and a replacement never wraps.
pub proof fn replacement_never_wraps(a: i32, b: i32, c: i32, d: i32, e: i32)
    ensures
        neighbour_min(a, b, d, e) <= window_avg(a, b, d, e) <= neighbour_max(a, b, d, e),
        saturate_i32(window_avg(a, b, d, e)) as int == window_avg(a, b, d, e),
        is_outlier(a, b, c, d, e) ==> window_value(a, b, c, d, e) as int == window_avg(a, b, d, e),
{
}

/// A sequence in which no sample is an outlier of its padded window is left
/// unchanged by the filter.
pub proof fn fixed_point(x: Seq<i32>)
    requires
        forall|i: int|
            0 <= i < x.len() ==> !#[trigger] is_outlier(
                padded(x)[i],
                padded(x)[i + 1],
                padded(x)[i + 2],
                padded(x)[i + 3],
                padded(x)[i + 4],
            ),
    ensures
        cleaned(x) == x,
{
    assert forall|i: int| 0 <= i < x.len() implies cleaned(x)[i] == x[i] by {
        lemma_padded_index(x, i + 2);
        assert(is_outlier(
            padded(x)[i],
            padded(x)[i + 1],
            padded(x)[i + 2],
            padded(x)[i + 3],
            padded(x)[i + 4],
        ) == false);
    }
    assert(cleaned(x) =~= x);
}

/// Cleaning a whole signal as one block in place gives the same samples as
/// the allocating pass: both results are the cleaned signal.
pub proof fn streaming_matches_batch(block: Seq<i32>, streamed: Seq<i32>, batch: Seq<i32>)
    requires
        streamed == cleaned(block),
        batch == cleaned(block),
    ensures
        streamed == batch,
        streamed.len() == block.len(),
{
}

/// The first and the last sample always keep their value: their windows hold
/// both sentinels, so the spread of the neighbours covers the whole 32-bit
/// range.  A sequence of at most three samples is left unchanged.
pub proof fn outer_samples_kept(x: Seq<i32>)
    requires
        x.len() > 0,
    ensures
        cleaned(x)[0] == x[0],
        cleaned(x)[x.len() - 1] == x[x.len() - 1],
        x.len() <= 3 ==> cleaned(x) == x,
{
    let n = x.len() as int;
    assert forall|i: int| 0 <= i < 5 && i < n + 4 implies padded(x)[i] == (if i == 0 {
        i32::MAX
    } else if i == 1 {
        i32::MIN
    } else if i < n + 2 {
        x[i - 2]
    } else if i == n + 2 {
        i32::MAX
    } else {
        i32::MIN
    }) by {
        lemma_padded_index(x, i);
    }
    assert forall|i: int| n - 1 <= i < n + 4 && 0 <= i implies padded(x)[i] == (if i == 0 {
        i32::MAX
    } else if i == 1 {
        i32::MIN
    } else if i < n + 2 {
        x[i - 2]
    } else if i == n + 2 {
        i32::MAX
    } else {
        i32::MIN
    }) by {
        lemma_padded_index(x, i);
    }
    if n <= 3 {
        assert forall|i: int| 0 <= i < n implies cleaned(x)[i] == x[i] by {
            lemma_padded_index(x, i);
            lemma_padded_index(x, i + 1);
            lemma_padded_index(x, i + 2);
            lemma_padded_index(x, i + 3);
            lemma_padded_index(x, i + 4);
        }
        assert(cleaned(x) =~= x);
    }
}

/// The second sample keeps its value unless all of its neighbours other than
/// the `MIN` sentinel lie below `-2^28`; then a large centre can still stand
/// out, as `[MIN, 0, MIN, MIN]` shows.
pub proof fn second_sample_kept(x: Seq<i32>)
    requires
        x.len() >= 2,
        neighbour_max(padded(x)[1], padded(x)[2], padded(x)[4], padded(x)[5]) >= -0x1000_0000,
    ensures
        cleaned(x)[1] == x[1],
{
    lemma_padded_index(x, 1);
    lemma_padded_index(x, 3);
}

/// The sample before the last keeps its value unless all of its neighbours
/// other than the `MAX` sentinel lie above `2^28`.
pub proof fn second_to_last_sample_kept(x: Seq<i32>)
    requires
        x.len() >= 2,
        neighbour_min(
            padded(x)[x.len() - 2],
            padded(x)[x.len() - 1],
            padded(x)[x.len() as int + 1],
            padded(x)[x.len() as int + 2],
        ) <= 0x1000_0000,
    ensures
        cleaned(x)[x.len() - 2] == x[x.len() - 2],
{
    lemma_padded_index(x, x.len() as int + 2);
    lemma_padded_index(x, x.len() as int);
}

} // verus!

//! The five-sample window evaluator for 32-bit integer samples.
use vstd::prelude::*;

verus! {

/// Smaller of two integers.
pub open spec fn min_of(x: int, y: int) -> int {
    if x <= y { x } else { y }
}

/// Larger of two integers.
pub open spec fn max_of(x: int, y: int) -> int {
    if x >= y { x } else { y }
}

/// Smallest of the four neighbours of a window.
pub open spec fn neighbour_min(a: i32, b: i32, d: i32, e: i32) -> int {
    min_of(min_of(min_of(a as int, b as int), d as int), e as int)
}

/// Largest of the four neighbours of a window.
pub open spec fn neighbour_max(a: i32, b: i32, d: i32, e: i32) -> int {
    max_of(max_of(max_of(a as int, b as int), d as int), e as int)
}

/// Half of `x`, rounded toward zero (integer division as machine code does it).
pub open spec fn half_toward_zero(x: int) -> int {
    if x >= 0 { x / 2 } else { -((-x) / 2) }
}

/// Spread of the neighbours: `|max - min|`.
pub open spec fn window_distance(a: i32, b: i32, d: i32, e: i32) -> int {
    neighbour_max(a, b, d, e) - neighbour_min(a, b, d, e)
}

/// Midpoint of the neighbours, `(max + min) / 2` rounded toward zero.
pub open spec fn window_avg(a: i32, b: i32, d: i32, e: i32) -> int {
    half_toward_zero(neighbour_max(a, b, d, e) + neighbour_min(a, b, d, e))
}

/// The centre `c` lies outside `avg ± 2·distance`.
pub open spec fn is_outlier(a: i32, b: i32, c: i32, d: i32, e: i32) -> bool {
    let avg = window_avg(a, b, d, e);
    let dist = window_distance(a, b, d, e);
    c as int > avg + 2 * dist || (c as int) < avg - 2 * dist
}

/// Narrowing to 32 bits that saturates at the bounds instead of wrapping.
pub open spec fn saturate_i32(x: int) -> i32 {
    if x > i32::MAX as int {
        i32::MAX
    } else if x < i32::MIN as int {
        i32::MIN
    } else {
        x as i32
    }
}

/// The value that takes the place of the centre `c` of the window `(a, b, c, d, e)`.
pub open spec fn window_value(a: i32, b: i32, c: i32, d: i32, e: i32) -> i32 {
    if is_outlier(a, b, c, d, e) {
        saturate_i32(window_avg(a, b, d, e))
    } else {
        c
    }
}

/// Returns the value to use in place of `c`: the saturated midpoint of the
/// four neighbours when `c` is an outlier, `c` itself otherwise.
pub fn evaluate_window(a: i32, b: i32, c: i32, d: i32, e: i32) -> (r: i32)
    ensures
        r == window_value(a, b, c, d, e),
{
    let min: i64 = a.min(b).min(d).min(e) as i64;
    let max: i64 = a.max(b).max(d).max(e) as i64;
    let diff: i64 = max - min;
    let distance: i64 = if diff < 0 { -diff } else { diff };
    let sum: i64 = max + min;
    let avg: i64 = if sum >= 0 { sum / 2 } else { -((-sum) / 2) };
    let point: i64 = c as i64;
    if point > avg + distance * 2 || point < avg - distance * 2 {
        if avg > i32::MAX as i64 {
            i32::MAX
        } else if avg < i32::MIN as i64 {
            i32::MIN
        } else {
            avg as i32
        }
    } else {
        c
    }
}

} // verus!

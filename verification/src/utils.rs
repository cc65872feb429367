use vstd::arithmetic::div_mod::{
    lemma_div_nonincreasing,
    lemma_div_pos_is_pos,
    lemma_fundamental_div_mod,
    lemma_mod_division_less_than_divisor,
};
use vstd::prelude::*;

verus! {

/// One unit in the fixed-point scale used for every animated scalar of this
/// crate (values, tensions, normalized progress): 2^20 fractional steps.
pub const FIXED_ONE: i64 = 1048576;

/// Largest magnitude a keyframe value (or interpolation result) may have.
/// Generous for angles in fixed-point degrees and for zoom factors, yet small
/// enough that every interpolation product stays well inside `i64`.
pub const VAL_MAX: i64 = 1073741824;

/// Largest magnitude allowed for a song-clock tick that takes part in
/// interpolation, and for the width of a keyframe segment or spin window.
pub const TICK_MAX: i64 = 1073741824;

/// For a positive divisor the Euclidean quotient never grows in magnitude:
/// it stays between the dividend and zero.
pub proof fn lemma_div_magnitude_bounds(x: int, d: int)
    requires
        d >= 1,
    ensures
        x >= 0 ==> 0 <= x / d <= x,
        x < 0 ==> x <= x / d <= 0,
{
    if x >= 0 {
        lemma_div_pos_is_pos(x, d);
        lemma_div_nonincreasing(x, d);
    } else {
        lemma_fundamental_div_mod(x, d);
        lemma_mod_division_less_than_divisor(x, d);
        let q = x / d;
        let r = x % d;
        assert(x <= q && q <= 0) by (nonlinear_arith)
            requires
                x == d * q + r,
                0 <= r < d,
                d >= 1,
                x < 0,
        ;
    }
}

/// The exact value `linear_map` computes: remap `x_i` from the segment
/// `[x_min, x_max]` to `[y_min, y_max]`, with Euclidean division.
pub open spec fn linear_map_spec(
    x_i: int,
    x_min: int,
    x_max: int,
    y_min: int,
    y_max: int,
) -> int {
    (x_i - x_min) * (y_max - y_min) / (x_max - x_min) + y_min
}

/// Linearly remaps `x_i` from the range `[x_min, x_max]` to the range
/// `[y_min, y_max]`. `x_i` need not lie inside the source range; the map
/// extrapolates. The source range is taken ascending; a descending map is
/// written by swapping the target endpoints instead.
pub fn linear_map(x_i: i64, x_min: i64, x_max: i64, y_min: i64, y_max: i64) -> (r: i64)
    requires
        x_min < x_max,
        x_max - x_min <= i64::MAX,
        i64::MIN <= x_i - x_min <= i64::MAX,
        i64::MIN <= y_max - y_min <= i64::MAX,
        i64::MIN <= (x_i - x_min) * (y_max - y_min) <= i64::MAX,
        i64::MIN <= linear_map_spec(
            x_i as int,
            x_min as int,
            x_max as int,
            y_min as int,
            y_max as int,
        ) <= i64::MAX,
    ensures
        r == linear_map_spec(x_i as int, x_min as int, x_max as int, y_min as int, y_max as int),
{
    let dx: i64 = x_i - x_min;
    let dy: i64 = y_max - y_min;
    let span: i64 = x_max - x_min;
    let scaled: i64 = dx * dy;
    proof {
        lemma_div_magnitude_bounds(scaled as int, span as int);
    }
    let q: i64 = match scaled.checked_div_euclid(span) {
        Some(q) => q,
        None => 0,
    };
    q + y_min
}

} // verus!

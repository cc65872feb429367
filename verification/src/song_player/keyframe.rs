use crate::song_player::song_timer::SongTime;
use crate::utils::{lemma_div_magnitude_bounds, linear_map_spec, FIXED_ONE, TICK_MAX, VAL_MAX};
use vstd::arithmetic::div_mod::{
    lemma_div_is_ordered,
    lemma_div_multiples_vanish,
    lemma_div_of0,
    lemma_fundamental_div_mod,
};
use vstd::prelude::*;

verus! {

/// Bounds under which a keyframe segment can be interpolated without any
/// intermediate product leaving `i64`: bounded values, a strictly positive
/// bounded time span, and a tension within one fixed-point unit.
pub open spec fn segment_wf(v0: int, t0: int, v1: int, t1: int, tension: int) -> bool {
    &&& -VAL_MAX <= v0 <= VAL_MAX
    &&& -VAL_MAX <= v1 <= VAL_MAX
    &&& -TICK_MAX <= t0 < t1 <= TICK_MAX
    &&& -FIXED_ONE <= tension <= FIXED_ONE
}

/// Raw progress clamped into `[0, FIXED_ONE]`.
pub open spec fn clamp_progress(raw: int) -> int {
    if raw < 0 {
        0
    } else if raw > FIXED_ONE {
        FIXED_ONE as int
    } else {
        raw
    }
}

/// Normalized progress of `q` through `[t0, t1]`, scaled to fixed-point and
/// clamped into `[0, FIXED_ONE]`.
pub open spec fn progress_spec(q: int, t0: int, t1: int) -> int {
    clamp_progress((q - t0) * FIXED_ONE / (t1 - t0))
}

/// Quadratic ease that leaves the starting endpoint slowly.
pub open spec fn ease_in_spec(p: int) -> int {
    p * p / (FIXED_ONE as int)
}

/// Quadratic ease that approaches the ending endpoint slowly.
pub open spec fn ease_out_spec(p: int) -> int {
    FIXED_ONE - (FIXED_ONE - p) * (FIXED_ONE - p) / (FIXED_ONE as int)
}

/// Symmetric smooth step, slow at both endpoints.
pub open spec fn smooth_spec(p: int) -> int {
    p * p * (3 * FIXED_ONE - 2 * p) / (FIXED_ONE as int) / (FIXED_ONE as int)
}

/// Mix of the identity warp and an eased warp, weighted by the tension
/// magnitude `mag`: with `mag == 0` the identity, with `mag == FIXED_ONE`
/// the full ease.
pub open spec fn blend_spec(p: int, eased: int, mag: int) -> int {
    ((FIXED_ONE - mag) * p + mag * eased) / (FIXED_ONE as int)
}

/// The time warp a transformation curve applies to the normalized progress
/// when the tension is nonzero. The sign of the tension picks the endpoint
/// that the half-sigmoid curve eases into; the full sigmoid eases into both.
pub open spec fn warp_spec(curve: TransformationKFCurve, p: int, tension: int) -> int {
    match curve {
        TransformationKFCurve::HalfSigmoid => {
            if tension > 0 {
                blend_spec(p, ease_in_spec(p), tension)
            } else {
                blend_spec(p, ease_out_spec(p), -tension)
            }
        },
        TransformationKFCurve::Sigmoid => {
            blend_spec(p, smooth_spec(p), if tension >= 0 { tension } else { -tension })
        },
        TransformationKFCurve::Stair => p,
    }
}

/// The value a transformation curve yields at query time `q` on the segment
/// from `(t0, v0)` to `(t1, v1)`.
///
/// A zero tension means plain linear interpolation whatever the curve kind.
/// With a nonzero tension the curved kinds remap the clamped normalized
/// progress through their warp, and the stair kind holds `v0` until `t1` and
/// then jumps to `v1`.
pub open spec fn curve_value_spec(
    curve: TransformationKFCurve,
    q: int,
    v0: int,
    t0: int,
    v1: int,
    t1: int,
    tension: int,
) -> int {
    if tension == 0 {
        linear_map_spec(q, t0, t1, v0, v1)
    } else {
        match curve {
            TransformationKFCurve::Stair => if q >= t1 {
                v1
            } else {
                v0
            },
            _ => v0 + warp_spec(curve, progress_spec(q, t0, t1), tension) * (v1 - v0) / (FIXED_ONE as int),
        }
    }
}

/// Euclidean division by a positive divisor.
fn div_pos(num: i64, den: i64) -> (r: i64)
    requires
        1 <= den,
    ensures
        r == num as int / den as int,
{
    proof {
        lemma_div_magnitude_bounds(num as int, den as int);
    }
    match num.checked_div_euclid(den) {
        Some(q) => q,
        None => 0,
    }
}

/// Clamped, scaled progress of `q` through the segment `[t0, t1]`.
fn progress(q: i64, t0: i64, t1: i64) -> (r: i64)
    requires
        -TICK_MAX <= q <= TICK_MAX,
        -TICK_MAX <= t0 < t1 <= TICK_MAX,
    ensures
        r == progress_spec(q as int, t0 as int, t1 as int),
        0 <= r <= FIXED_ONE,
{
    let dq: i64 = q - t0;
    let scaled: i64 = dq * FIXED_ONE;
    let raw: i64 = div_pos(scaled, t1 - t0);
    if raw < 0 {
        0
    } else if raw > FIXED_ONE {
        FIXED_ONE
    } else {
        raw
    }
}

/// Quadratic ease-in warp on a clamped progress.
fn ease_in(p: i64) -> (r: i64)
    requires
        0 <= p <= FIXED_ONE,
    ensures
        r == ease_in_spec(p as int),
        0 <= r <= FIXED_ONE,
{
    proof {
        assert(0 <= p * p <= FIXED_ONE * FIXED_ONE) by (nonlinear_arith)
            requires
                0 <= p <= FIXED_ONE,
        ;
        lemma_div_magnitude_bounds(p * p, FIXED_ONE as int);
        lemma_div_is_ordered(p * p, FIXED_ONE * FIXED_ONE, FIXED_ONE as int);
        lemma_div_multiples_vanish(FIXED_ONE as int, FIXED_ONE as int);
    }
    let pp: i64 = p * p;
    div_pos(pp, FIXED_ONE)
}

/// Quadratic ease-out warp on a clamped progress.
fn ease_out(p: i64) -> (r: i64)
    requires
        0 <= p <= FIXED_ONE,
    ensures
        r == ease_out_spec(p as int),
        0 <= r <= FIXED_ONE,
{
    let inv: i64 = FIXED_ONE - p;
    proof {
        assert(0 <= inv * inv <= FIXED_ONE * FIXED_ONE) by (nonlinear_arith)
            requires
                0 <= inv <= FIXED_ONE,
        ;
        lemma_div_magnitude_bounds(inv * inv, FIXED_ONE as int);
        lemma_div_is_ordered(inv * inv, FIXED_ONE * FIXED_ONE, FIXED_ONE as int);
        lemma_div_multiples_vanish(FIXED_ONE as int, FIXED_ONE as int);
    }
    let sq: i64 = inv * inv;
    let d: i64 = div_pos(sq, FIXED_ONE);
    FIXED_ONE - d
}

/// Symmetric smooth-step warp on a clamped progress.
fn smooth(p: i64) -> (r: i64)
    requires
        0 <= p <= FIXED_ONE,
    ensures
        r == smooth_spec(p as int),
        0 <= r <= FIXED_ONE,
{
    proof {
        assert(0 <= p * p <= FIXED_ONE * FIXED_ONE) by (nonlinear_arith)
            requires
                0 <= p <= FIXED_ONE,
        ;
    }
    let pp: i64 = p * p;
    let tail: i64 = 3 * FIXED_ONE - 2 * p;
    proof {
        assert(pp * tail == p * p * (3 * FIXED_ONE - 2 * p)) by (nonlinear_arith)
            requires
                pp == p * p,
                tail == 3 * FIXED_ONE - 2 * p,
        ;
        assert((FIXED_ONE - p) * (FIXED_ONE - p) * (FIXED_ONE + 2 * p) >= 0) by (nonlinear_arith)
            requires
                0 <= p <= FIXED_ONE,
        ;
        assert(p * p * (3 * FIXED_ONE - 2 * p) == FIXED_ONE * FIXED_ONE * FIXED_ONE - (FIXED_ONE
            - p) * (FIXED_ONE - p) * (FIXED_ONE + 2 * p)) by (nonlinear_arith);
        assert(p * p * (3 * FIXED_ONE - 2 * p) >= 0) by (nonlinear_arith)
            requires
                0 <= p <= FIXED_ONE,
        ;
    }
    let cubic: i64 = pp * tail;
    proof {
        lemma_div_magnitude_bounds(cubic as int, FIXED_ONE as int);
        lemma_div_is_ordered(
            cubic as int,
            FIXED_ONE * FIXED_ONE * FIXED_ONE,
            FIXED_ONE as int,
        );
        assert(FIXED_ONE * FIXED_ONE * FIXED_ONE / FIXED_ONE as int == FIXED_ONE * FIXED_ONE) by {
            lemma_div_multiples_vanish(FIXED_ONE * FIXED_ONE, FIXED_ONE as int);
        }
    }
    let d1: i64 = div_pos(cubic, FIXED_ONE);
    proof {
        lemma_div_magnitude_bounds(d1 as int, FIXED_ONE as int);
        lemma_div_is_ordered(d1 as int, FIXED_ONE * FIXED_ONE, FIXED_ONE as int);
        lemma_div_multiples_vanish(FIXED_ONE as int, FIXED_ONE as int);
    }
    div_pos(d1, FIXED_ONE)
}

/// Mix of the identity warp and an eased warp by the tension magnitude.
fn blend(p: i64, eased: i64, mag: i64) -> (r: i64)
    requires
        0 <= p <= FIXED_ONE,
        0 <= eased <= FIXED_ONE,
        0 <= mag <= FIXED_ONE,
    ensures
        r == blend_spec(p as int, eased as int, mag as int),
        0 <= r <= FIXED_ONE,
{
    proof {
        assert(0 <= (FIXED_ONE - mag) * p + mag * eased <= FIXED_ONE * FIXED_ONE)
            by (nonlinear_arith)
            requires
                0 <= p <= FIXED_ONE,
                0 <= eased <= FIXED_ONE,
                0 <= mag <= FIXED_ONE,
        ;
        lemma_div_magnitude_bounds(
            (FIXED_ONE - mag) * p + mag * eased,
            FIXED_ONE as int,
        );
        lemma_div_is_ordered(
            (FIXED_ONE - mag) * p + mag * eased,
            FIXED_ONE * FIXED_ONE,
            FIXED_ONE as int,
        );
        lemma_div_multiples_vanish(FIXED_ONE as int, FIXED_ONE as int);
    }
    let a: i64 = (FIXED_ONE - mag) * p;
    let b: i64 = mag * eased;
    div_pos(a + b, FIXED_ONE)
}

/// A fraction `x / d` of a difference `dv` stays between zero and `dv`.
pub proof fn lemma_fraction_between(x: int, d: int, dv: int)
    requires
        0 <= x <= d,
        1 <= d,
    ensures
        dv >= 0 ==> 0 <= x * dv / d <= dv,
        dv < 0 ==> dv <= x * dv / d <= 0,
{
    if dv >= 0 {
        assert(0 <= x * dv <= d * dv) by (nonlinear_arith)
            requires
                0 <= x <= d,
                dv >= 0,
        ;
        lemma_div_magnitude_bounds(x * dv, d);
        lemma_div_is_ordered(x * dv, d * dv, d);
        lemma_div_multiples_vanish(dv, d);
    } else {
        assert(d * dv <= x * dv <= 0) by (nonlinear_arith)
            requires
                0 <= x <= d,
                dv < 0,
        ;
        lemma_div_magnitude_bounds(x * dv, d);
        lemma_div_is_ordered(d * dv, x * dv, d);
        lemma_div_multiples_vanish(dv, d);
    }
}

/// The warp of a clamped progress is itself a clamped progress: every curve
/// kind maps `[0, FIXED_ONE]` into `[0, FIXED_ONE]`.
pub proof fn lemma_warp_range(curve: TransformationKFCurve, p: int, tension: int)
    requires
        0 <= p <= FIXED_ONE,
        -FIXED_ONE <= tension <= FIXED_ONE,
    ensures
        0 <= warp_spec(curve, p, tension) <= FIXED_ONE,
{
    let s = FIXED_ONE as int;
    lemma_fraction_between(p, s, p);
    assert(0 <= ease_in_spec(p) <= FIXED_ONE);
    lemma_fraction_between(s - p, s, s - p);
    assert(0 <= ease_out_spec(p) <= FIXED_ONE);
    // the smooth step stays within range because its cubic stays within s^3
    assert((s - p) * (s - p) * (s + 2 * p) >= 0) by (nonlinear_arith)
        requires
            0 <= p <= s,
    ;
    assert(p * p * (3 * s - 2 * p) == s * s * s - (s - p) * (s - p) * (s + 2 * p))
        by (nonlinear_arith);
    assert(p * p * (3 * s - 2 * p) >= 0) by (nonlinear_arith)
        requires
            0 <= p <= s,
    ;
    lemma_div_magnitude_bounds(p * p * (3 * s - 2 * p), s);
    lemma_div_is_ordered(p * p * (3 * s - 2 * p), s * s * s, s);
    assert(s * s * s / s == s * s) by {
        lemma_div_multiples_vanish(s * s, s);
    }
    lemma_div_magnitude_bounds(p * p * (3 * s - 2 * p) / s, s);
    lemma_div_is_ordered(p * p * (3 * s - 2 * p) / s, s * s, s);
    lemma_div_multiples_vanish(s, s);
    assert(0 <= smooth_spec(p) <= FIXED_ONE);
    // any blend of two clamped warps is clamped
    assert forall|e: int, m: int|
        0 <= e <= s && 0 <= m <= s implies 0 <= #[trigger] blend_spec(p, e, m) <= FIXED_ONE by {
        assert(0 <= (s - m) * p + m * e <= s * s) by (nonlinear_arith)
            requires
                0 <= p <= s,
                0 <= e <= s,
                0 <= m <= s,
        ;
        lemma_div_magnitude_bounds((s - m) * p + m * e, s);
        lemma_div_is_ordered((s - m) * p + m * e, s * s, s);
        lemma_div_multiples_vanish(s, s);
    }
}

/// Law: interpolating strictly inside a segment yields a value between the
/// two endpoint values, whatever the curve kind and tension.
pub proof fn lemma_curve_value_within(
    curve: TransformationKFCurve,
    q: int,
    v0: int,
    t0: int,
    v1: int,
    t1: int,
    tension: int,
)
    requires
        segment_wf(v0, t0, v1, t1, tension),
        t0 < q < t1,
    ensures
        v0 <= v1 ==> v0 <= curve_value_spec(curve, q, v0, t0, v1, t1, tension) <= v1,
        v1 <= v0 ==> v1 <= curve_value_spec(curve, q, v0, t0, v1, t1, tension) <= v0,
{
    let dv = v1 - v0;
    if tension == 0 {
        lemma_fraction_between(q - t0, t1 - t0, dv);
    } else if curve is Stair {
    } else {
        let p = progress_spec(q, t0, t1);
        assert(0 <= p <= FIXED_ONE);
        lemma_warp_range(curve, p, tension);
        lemma_fraction_between(warp_spec(curve, p, tension), FIXED_ONE as int, dv);
    }
}

/// Law: interpolation is continuous at the segment endpoints. Whatever the
/// curve kind and tension, the value at `t0` is exactly `v0` and the value
/// at `t1` is exactly `v1`.
pub proof fn lemma_curve_value_endpoints(
    curve: TransformationKFCurve,
    v0: int,
    t0: int,
    v1: int,
    t1: int,
    tension: int,
)
    requires
        segment_wf(v0, t0, v1, t1, tension),
    ensures
        curve_value_spec(curve, t0, v0, t0, v1, t1, tension) == v0,
        curve_value_spec(curve, t1, v0, t0, v1, t1, tension) == v1,
{
    let s = FIXED_ONE as int;
    let d = t1 - t0;
    let dv = v1 - v0;
    lemma_div_of0(d);
    lemma_div_of0(s);
    lemma_div_multiples_vanish(dv, d);
    lemma_div_multiples_vanish(dv, s);
    lemma_div_multiples_vanish(s, d);
    lemma_div_multiples_vanish(s, s);
    if tension == 0 {
        assert((t0 - t0) * dv == 0) by (nonlinear_arith);
        assert((t1 - t0) * dv == d * dv);
    } else if curve is Stair {
    } else {
        // at t0 the progress is zero and every warp fixes zero
        assert((t0 - t0) * s == 0) by (nonlinear_arith);
        assert(progress_spec(t0, t0, t1) == 0);
        assert(ease_in_spec(0) == 0) by {
            assert(0 * 0 == 0) by (nonlinear_arith);
        }
        assert(ease_out_spec(0) == 0) by {
            assert(s * s / s == s);
        }
        assert(smooth_spec(0) == 0) by {
            assert(0 * 0 * (3 * s - 2 * 0) == 0) by (nonlinear_arith);
        }
        let m_half = if tension > 0 { tension } else { -tension };
        assert(blend_spec(0, 0, m_half) == 0) by {
            assert((s - m_half) * 0 + m_half * 0 == 0) by (nonlinear_arith);
        }
        assert(warp_spec(curve, 0, tension) == 0);
        assert(v0 + 0 * dv / s == v0) by {
            assert(0 * dv == 0) by (nonlinear_arith);
        }
        // at t1 the progress is a whole unit and every warp fixes it
        assert((t1 - t0) * s == d * s);
        assert(progress_spec(t1, t0, t1) == s);
        assert(ease_in_spec(s) == s) by {
            assert(s * s / s == s);
        }
        assert(ease_out_spec(s) == s) by {
            assert((s - s) * (s - s) == 0) by (nonlinear_arith);
        }
        assert(smooth_spec(s) == s) by {
            assert(s * s * (3 * s - 2 * s) == s * s * s) by (nonlinear_arith);
            assert(s * s * s / s == s * s) by {
                lemma_div_multiples_vanish(s * s, s);
            }
        }
        assert(blend_spec(s, s, m_half) == s) by {
            assert((s - m_half) * s + m_half * s == s * s) by (nonlinear_arith);
            assert(s * s / s == s);
        }
        assert(warp_spec(curve, s, tension) == s);
        assert(v0 + s * dv / s == v1) by {
            lemma_div_multiples_vanish(dv, s);
        }
    }
}

/// The strategy a keyframe uses to interpolate toward the next keyframe.
pub trait KeyframeCurveType: Sized {
    /// The mathematical meaning of `interpolate` for this curve kind.
    spec fn interpolate_spec(
        &self,
        q: int,
        v0: int,
        t0: int,
        v1: int,
        t1: int,
        tension: int,
    ) -> int;

    /// Interpolates the segment from `this` to `next` at the query time.
    fn interpolate(
        &self,
        time: &SongTime,
        this: (i64, &SongTime),
        next: (i64, &SongTime),
        tension: i64,
    ) -> (r: i64)
        requires
            segment_wf(
                this.0 as int,
                this.1.0 as int,
                next.0 as int,
                next.1.0 as int,
                tension as int,
            ),
            -TICK_MAX <= time.0 <= TICK_MAX,
        ensures
            r == self.interpolate_spec(
                time.0 as int,
                this.0 as int,
                this.1.0 as int,
                next.0 as int,
                next.1.0 as int,
                tension as int,
            ),
    ;
}

/// Curve kinds for the lane transformation tracks.
#[derive(Debug, Clone, PartialEq, Eq, Structural)]
pub enum TransformationKFCurve {
    HalfSigmoid,
    Sigmoid,
    Stair,
}

impl KeyframeCurveType for TransformationKFCurve {
    open spec fn interpolate_spec(
        &self,
        q: int,
        v0: int,
        t0: int,
        v1: int,
        t1: int,
        tension: int,
    ) -> int {
        curve_value_spec(*self, q, v0, t0, v1, t1, tension)
    }

    fn interpolate(
        &self,
        time: &SongTime,
        this: (i64, &SongTime),
        next: (i64, &SongTime),
        tension: i64,
    ) -> (r: i64) {
        let (v0, t0) = this;
        let (v1, t1) = next;
        if tension == 0 {
            proof {
                assert(-4611686018427387904 <= (time.0 - t0.0) * (v1 - v0)
                    <= 4611686018427387904) by (nonlinear_arith)
                    requires
                        -2147483648 <= time.0 - t0.0 <= 2147483648,
                        -2147483648 <= v1 - v0 <= 2147483648,
                ;
                lemma_div_magnitude_bounds(
                    (time.0 - t0.0) * (v1 - v0),
                    t1.0 - t0.0,
                );
            }
            crate::utils::linear_map(time.0, t0.0, t1.0, v0, v1)
        } else {
            match self {
                TransformationKFCurve::Stair => {
                    if time.0 >= t1.0 {
                        v1
                    } else {
                        v0
                    }
                },
                _ => {
                    let p: i64 = progress(time.0, t0.0, t1.0);
                    let w: i64 = match self {
                        TransformationKFCurve::HalfSigmoid => {
                            if tension > 0 {
                                let e: i64 = ease_in(p);
                                blend(p, e, tension)
                            } else {
                                let e: i64 = ease_out(p);
                                blend(p, e, -tension)
                            }
                        },
                        _ => {
                            let e: i64 = smooth(p);
                            let mag: i64 = if tension >= 0 {
                                tension
                            } else {
                                -tension
                            };
                            blend(p, e, mag)
                        },
                    };
                    proof {
                        assert(-FIXED_ONE * 2 * VAL_MAX <= w * (v1 - v0) <= FIXED_ONE * 2
                            * VAL_MAX) by (nonlinear_arith)
                            requires
                                0 <= w <= FIXED_ONE,
                                -2 * VAL_MAX <= v1 - v0 <= 2 * VAL_MAX,
                        ;
                        lemma_div_magnitude_bounds(w * (v1 - v0), FIXED_ONE as int);
                    }
                    let num: i64 = w * (v1 - v0);
                    let off: i64 = div_pos(num, FIXED_ONE);
                    v0 + off
                },
            }
        }
    }
}

/// Curve kinds for laser paths.
#[derive(Debug, Clone, PartialEq, Eq, Structural)]
pub enum LaserKFCurve {
    HalfSigmoid,
    Sigmoid,
}

/// Whether the fields of a keyframe lie within the bounds that make
/// interpolation overflow-free.
pub open spec fn keyframe_bounds_wf(value: int, song_time: int, tension: int) -> bool {
    &&& -VAL_MAX <= value <= VAL_MAX
    &&& -TICK_MAX <= song_time <= TICK_MAX
    &&& -FIXED_ONE <= tension <= FIXED_ONE
}

/// One record of a keyframe track: a fixed-point value to reach, the song
/// time at which it is reached, and the curve shaping the approach.
#[derive(Debug, Clone, PartialEq)]
pub struct Keyframe<C> where C: KeyframeCurveType {
    pub value: i64,
    pub song_time: SongTime,
    pub curve: C,
    pub tension: i64,
}

impl<C> Keyframe<C> where C: KeyframeCurveType {
    /// Whether this keyframe's fields are within interpolation bounds.
    pub open spec fn wf(&self) -> bool {
        keyframe_bounds_wf(self.value as int, self.song_time.0 as int, self.tension as int)
    }

    /// Builds a keyframe from its parts.
    pub fn new(value: i64, song_time: SongTime, curve: C, tension: i64) -> (r: Keyframe<C>)
        requires
            keyframe_bounds_wf(value as int, song_time.0 as int, tension as int),
        ensures
            r.value == value,
            r.song_time == song_time,
            r.curve == curve,
            r.tension == tension,
            r.wf(),
    {
        Keyframe { value, song_time, curve, tension }
    }

    /// The value this keyframe holds.
    pub fn value(&self) -> (r: i64)
        ensures
            r == self.value,
    {
        self.value
    }

    /// The song time at which this keyframe's value is reached.
    pub fn song_time(&self) -> (r: SongTime)
        ensures
            r == self.song_time,
    {
        self.song_time
    }

    /// The curve shaping the approach toward the next keyframe.
    pub fn curve(&self) -> (r: &C)
        ensures
            r == self.curve,
    {
        &self.curve
    }

    /// The tension biasing the curve toward one endpoint.
    pub fn tension(&self) -> (r: i64)
        ensures
            r == self.tension,
    {
        self.tension
    }

    /// Interpolates between this keyframe and the next one at `time`.
    pub fn interpolate_against(&self, time: &SongTime, next: &Keyframe<C>) -> (r: i64)
        requires
            self.wf(),
            next.wf(),
            self.song_time.0 < next.song_time.0,
            -TICK_MAX <= time.0 <= TICK_MAX,
        ensures
            r == self.curve.interpolate_spec(
                time.0 as int,
                self.value as int,
                self.song_time.0 as int,
                next.value as int,
                next.song_time.0 as int,
                self.tension as int,
            ),
    {
        self.curve.interpolate(
            time,
            (self.value, &self.song_time),
            (next.value, &next.song_time),
            self.tension,
        )
    }
}

/// Law: with zero tension, interpolating at the midpoint of a segment yields
/// the average of the endpoint values, for every curve kind. Stated for
/// segments whose time span and value difference are both even, so that the
/// average is exact in integers.
pub proof fn lemma_linear_midpoint(
    curve: TransformationKFCurve,
    v0: int,
    t0: int,
    v1: int,
    t1: int,
)
    requires
        segment_wf(v0, t0, v1, t1, 0),
        (t1 - t0) % 2 == 0,
        (v1 - v0) % 2 == 0,
    ensures
        curve_value_spec(curve, (t0 + t1) / 2, v0, t0, v1, t1, 0) == (v0 + v1) / 2,
{
    let d = t1 - t0;
    let dv = v1 - v0;
    let q = (t0 + t1) / 2;
    lemma_fundamental_div_mod(d, 2);
    lemma_fundamental_div_mod(dv, 2);
    assert(d == 2 * (d / 2));
    assert(dv == 2 * (dv / 2));
    assert((t0 + t1) == 2 * t0 + d);
    assert(2 * t0 + 2 * (d / 2) == 2 * (t0 + d / 2)) by (nonlinear_arith);
    lemma_div_multiples_vanish(t0 + d / 2, 2);
    assert(q == t0 + d / 2);
    assert((q - t0) * dv == (d / 2) * dv);
    assert((d / 2) * dv == d * (dv / 2)) by (nonlinear_arith)
        requires
            d == 2 * (d / 2),
            dv == 2 * (dv / 2),
    ;
    lemma_div_multiples_vanish(dv / 2, d);
    assert(linear_map_spec(q, t0, t1, v0, v1) == v0 + dv / 2);
    assert(v0 + v1 == 2 * (v0 + dv / 2)) by (nonlinear_arith)
        requires
            dv == 2 * (dv / 2),
            dv == v1 - v0,
    ;
    lemma_div_multiples_vanish(v0 + dv / 2, 2);
}

} // verus!

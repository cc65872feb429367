use crate::song_player::keyframe::{
    curve_value_spec,
    lemma_curve_value_within,
    Keyframe,
    KeyframeCurveType,
    TransformationKFCurve,
};
use crate::environment::actor_wrapper::{
    ActorWrapper,
    DrawCommand,
    RenderDetails,
    RenderPayload,
    RenderTarget,
    RenderableActorWrapper,
    UpdatePayload,
};
use crate::environment::update_routine::{
    oneshot_pair,
    oneshot_send,
    oneshot_wait,
    EnvelopeSink,
    RequestError,
    WindowRequest,
    WindowResponse,
};
use crate::environment::GameTime;
use crate::song_player::lanes::{Lanes, LanesRenderDetails};
use crate::song_player::song_timer::SongTime;
use futures::sync::oneshot::Receiver as OneshotReceiver;
use crate::utils::{
    lemma_div_magnitude_bounds,
    FIXED_ONE,
    TICK_MAX,
    VAL_MAX,
};
use vstd::arithmetic::div_mod::{
    lemma_div_is_ordered,
    lemma_div_multiples_vanish,
    lemma_multiply_divide_lt,
};
use vstd::prelude::*;

verus! {

/// One keyframe track: time-sorted records animating a single scalar.
pub type TransformTrack = Vec<(SongTime, Keyframe<TransformationKFCurve>)>;

/// Rotation used when the rotation track is empty.
pub const DEFAULT_ROTATION: i64 = 0;

/// Slant used when the slant track is empty: 36.5 degrees in fixed point,
/// tuned for a 90-degree vertical field of view.
pub const DEFAULT_SLANT: i64 = 38273024;

/// Zoom used when the zoom track is empty: -0.9765625 in fixed point.
pub const DEFAULT_ZOOM: i64 = -1024000;

/// A keyframe track is well-formed when it is strictly sorted by time, each
/// record's key equals its keyframe's own time, and each keyframe is within
/// interpolation bounds.
pub open spec fn track_wf(events: Seq<(SongTime, Keyframe<TransformationKFCurve>)>) -> bool {
    &&& forall|i: int, j: int|
        0 <= i < j < events.len() ==> (#[trigger] events[i]).0.0 < (#[trigger] events[j]).0.0
    &&& forall|i: int| 0 <= i < events.len() ==> (#[trigger] events[i]).0 == events[i].1.song_time
    &&& forall|i: int| 0 <= i < events.len() ==> (#[trigger] events[i]).1.wf()
}

/// The value a keyframe track yields at query time `q`.
///
/// An empty track yields `default`; a query at or before the first keyframe
/// yields the first value; one at or past the last yields the last value; an
/// exact time match yields that keyframe's value; and a query between two
/// keyframes interpolates along the earlier keyframe's curve.
pub open spec fn track_value(
    events: Seq<(SongTime, Keyframe<TransformationKFCurve>)>,
    q: int,
    default: int,
) -> int
    decreases events.len(),
{
    if events.len() == 0 {
        default
    } else if q <= events[0].0.0 {
        events[0].1.value as int
    } else if events.len() == 1 {
        events[0].1.value as int
    } else if q < events[1].0.0 {
        curve_value_spec(
            events[0].1.curve,
            q,
            events[0].1.value as int,
            events[0].0.0 as int,
            events[1].1.value as int,
            events[1].0.0 as int,
            events[0].1.tension as int,
        )
    } else {
        track_value(events.subrange(1, events.len() as int), q, default)
    }
}

/// The tail of a well-formed track is well-formed.
proof fn lemma_track_wf_tail(events: Seq<(SongTime, Keyframe<TransformationKFCurve>)>)
    requires
        track_wf(events),
        events.len() >= 1,
    ensures
        track_wf(events.subrange(1, events.len() as int)),
{
    let tail = events.subrange(1, events.len() as int);
    assert forall|i: int, j: int| 0 <= i < j < tail.len() implies (#[trigger] tail[i]).0.0 < (
    #[trigger] tail[j]).0.0 by {
        assert(tail[i] == events[i + 1]);
        assert(tail[j] == events[j + 1]);
    }
    assert forall|i: int| 0 <= i < tail.len() implies (#[trigger] tail[i]).0
        == tail[i].1.song_time && tail[i].1.wf() by {
        assert(tail[i] == events[i + 1]);
    }
}

/// Law: a query at a time exactly equal to an existing keyframe returns that
/// keyframe's value, with no interpolation.
pub proof fn lemma_keyframe_exact_match(
    events: Seq<(SongTime, Keyframe<TransformationKFCurve>)>,
    i: int,
    default: int,
)
    requires
        track_wf(events),
        0 <= i < events.len(),
    ensures
        track_value(events, events[i].0.0 as int, default) == events[i].1.value,
    decreases i,
{
    if i == 0 {
    } else {
        let q = events[i].0.0 as int;
        assert(events[0].0.0 < events[i].0.0);
        let tail = events.subrange(1, events.len() as int);
        lemma_track_wf_tail(events);
        assert(tail[i - 1] == events[i]);
        if events.len() >= 2 {
            assert(tail[0] == events[1]);
        }
        lemma_keyframe_exact_match(tail, i - 1, default);
    }
}

/// Law: a query strictly between two consecutive keyframes interpolates the
/// segment between them along the earlier keyframe's curve.
pub proof fn lemma_track_interior(
    events: Seq<(SongTime, Keyframe<TransformationKFCurve>)>,
    i: int,
    q: int,
    default: int,
)
    requires
        track_wf(events),
        0 <= i < events.len() - 1,
        events[i].0.0 < q < events[i + 1].0.0,
    ensures
        track_value(events, q, default) == curve_value_spec(
            events[i].1.curve,
            q,
            events[i].1.value as int,
            events[i].0.0 as int,
            events[i + 1].1.value as int,
            events[i + 1].0.0 as int,
            events[i].1.tension as int,
        ),
    decreases i,
{
    if i == 0 {
    } else {
        assert(events[0].0.0 < events[i].0.0);
        let tail = events.subrange(1, events.len() as int);
        lemma_track_wf_tail(events);
        assert(tail[i - 1] == events[i]);
        assert(tail[i] == events[i + 1]);
        assert(tail[0] == events[1]);
        lemma_track_interior(tail, i - 1, q, default);
    }
}

/// Law: a query at or past the last keyframe clamps to the last keyframe's
/// value.
pub proof fn lemma_track_after_last(
    events: Seq<(SongTime, Keyframe<TransformationKFCurve>)>,
    q: int,
    default: int,
)
    requires
        track_wf(events),
        events.len() >= 1,
        q >= events[events.len() - 1].0.0,
    ensures
        track_value(events, q, default) == events[events.len() - 1].1.value,
    decreases events.len(),
{
    if events.len() == 1 {
    } else {
        assert(events[0].0.0 < events[events.len() - 1].0.0);
        let tail = events.subrange(1, events.len() as int);
        lemma_track_wf_tail(events);
        assert(tail[0] == events[1]);
        assert(tail[tail.len() - 1] == events[events.len() - 1]);
        lemma_track_after_last(tail, q, default);
    }
}

/// Law: querying before the first keyframe clamps to the first keyframe's
/// value, and querying after the last clamps to the last keyframe's value.
pub proof fn lemma_keyframe_clamping(
    events: Seq<(SongTime, Keyframe<TransformationKFCurve>)>,
    q_before: int,
    q_after: int,
    default: int,
)
    requires
        track_wf(events),
        events.len() >= 1,
        q_before <= events[0].0.0,
        q_after >= events[events.len() - 1].0.0,
    ensures
        track_value(events, q_before, default) == events[0].1.value,
        track_value(events, q_after, default) == events[events.len() - 1].1.value,
{
    lemma_track_after_last(events, q_after, default);
}

/// Law: every value a well-formed track yields stays within the value bound,
/// as long as the default does.
pub proof fn lemma_track_value_bounded(
    events: Seq<(SongTime, Keyframe<TransformationKFCurve>)>,
    q: int,
    default: int,
)
    requires
        track_wf(events),
        -VAL_MAX <= default <= VAL_MAX,
    ensures
        -VAL_MAX <= track_value(events, q, default) <= VAL_MAX,
    decreases events.len(),
{
    if events.len() == 0 {
    } else if q <= events[0].0.0 {
        assert(events[0].1.wf());
    } else if events.len() == 1 {
        assert(events[0].1.wf());
    } else if q < events[1].0.0 {
        assert(events[0].1.wf());
        assert(events[1].1.wf());
        assert(events[0].0.0 < events[1].0.0);
        lemma_curve_value_within(
            events[0].1.curve,
            q,
            events[0].1.value as int,
            events[0].0.0 as int,
            events[1].1.value as int,
            events[1].0.0 as int,
            events[0].1.tension as int,
        );
    } else {
        lemma_track_wf_tail(events);
        lemma_track_value_bounded(events.subrange(1, events.len() as int), q, default);
    }
}

/// Looks up the value of a keyframe track at `time` by binary search, with
/// clamping at both ends and `default` for an empty track.
fn track_value_at(events: &TransformTrack, time: &SongTime, default: i64) -> (r: i64)
    requires
        track_wf(events@),
        -TICK_MAX <= time.0 <= TICK_MAX,
        -VAL_MAX <= default <= VAL_MAX,
    ensures
        r == track_value(events@, time.0 as int, default as int),
{
    let n: usize = events.len();
    if n == 0 {
        return default;
    }
    let q: i64 = time.0;
    let mut lo: usize = 0;
    let mut hi: usize = n;
    while lo < hi
        invariant
            lo <= hi <= n,
            n == events@.len(),
            track_wf(events@),
            forall|k: int| 0 <= k < lo ==> (#[trigger] events@[k]).0.0 < q,
            forall|k: int| hi <= k < n ==> (#[trigger] events@[k]).0.0 >= q,
        decreases hi - lo,
    {
        let mid: usize = lo + (hi - lo) / 2;
        if events[mid].0.0 < q {
            lo = mid + 1;
        } else {
            hi = mid;
        }
    }
    if lo == n {
        proof {
            assert(events@[n - 1].0.0 < q);
            lemma_track_after_last(events@, q as int, default as int);
        }
        events[n - 1].1.value()
    } else if events[lo].0.0 == q {
        proof {
            lemma_keyframe_exact_match(events@, lo as int, default as int);
        }
        events[lo].1.value()
    } else if lo == 0 {
        events[0].1.value()
    } else {
        proof {
            assert(events@[lo - 1].0.0 < q < events@[lo as int].0.0);
            lemma_track_interior(events@, lo as int - 1, q as int, default as int);
            assert(events@[lo - 1].1.wf());
            assert(events@[lo as int].1.wf());
        }
        let a = &events[lo - 1].1;
        let b = &events[lo].1;
        a.interpolate_against(time, b)
    }
}

/// Full turn (360 degrees) in fixed point: the rotation a spin overlay
/// applies at the instant it fires.
pub const SPIN_FULL_TURN: i64 = 377487360;

/// Peak sway deflection (90 degrees) in fixed point.
pub const SWAY_AMPLITUDE: i64 = 94371840;

/// The kinds of transient rotation overlay.
#[derive(Debug, Clone, PartialEq, Eq, Hash, Copy, Structural)]
pub enum SpinType {
    Spin,
    Sway,
}

/// Rotation contributed by a spin kind at normalized progress `p` through
/// its window, zero outside `[0, FIXED_ONE)`.
///
/// A full spin starts at one whole turn and decays linearly back to zero; a
/// sway rises parabolically to its peak at mid-window and falls back,
/// vanishing at both ends.
pub open spec fn spin_type_rotation_spec(st: SpinType, p: int) -> int {
    if !(0 <= p < FIXED_ONE) {
        0
    } else {
        match st {
            SpinType::Spin => SPIN_FULL_TURN * (FIXED_ONE - p) / (FIXED_ONE as int),
            SpinType::Sway => SWAY_AMPLITUDE * (4 * p * (FIXED_ONE - p) / (FIXED_ONE as int)) / (
            FIXED_ONE as int),
        }
    }
}

impl SpinType {
    /// Returns the corresponding rotation given a normalized progress value.
    ///
    /// The progress should be within `[0, FIXED_ONE)`. Outside that range the
    /// function returns 0, as if there were no rotation.
    pub fn clamped_rotate(&self, time_val: i64) -> (r: i64)
        ensures
            r == spin_type_rotation_spec(*self, time_val as int),
            0 <= r <= SPIN_FULL_TURN,
    {
        if !(0 <= time_val && time_val < FIXED_ONE) {
            return 0;
        }
        let p: i64 = time_val;
        match self {
            SpinType::Spin => {
                proof {
                    assert(0 <= SPIN_FULL_TURN * (FIXED_ONE - p)
                        <= SPIN_FULL_TURN * FIXED_ONE) by (nonlinear_arith)
                        requires
                            0 <= p < FIXED_ONE,
                    ;
                    lemma_div_magnitude_bounds(SPIN_FULL_TURN * (FIXED_ONE - p), FIXED_ONE as int);
                    lemma_div_is_ordered(
                        SPIN_FULL_TURN * (FIXED_ONE - p),
                        SPIN_FULL_TURN * FIXED_ONE,
                        FIXED_ONE as int,
                    );
                    lemma_div_multiples_vanish(SPIN_FULL_TURN as int, FIXED_ONE as int);
                }
                let num: i64 = SPIN_FULL_TURN * (FIXED_ONE - p);
                let q: i64 = match num.checked_div_euclid(FIXED_ONE) {
                    Some(q) => q,
                    None => 0,
                };
                q
            },
            SpinType::Sway => {
                proof {
                    assert(0 <= 4 * p * (FIXED_ONE - p) <= FIXED_ONE * FIXED_ONE)
                        by (nonlinear_arith)
                        requires
                            0 <= p < FIXED_ONE,
                    ;
                    lemma_div_magnitude_bounds(4 * p * (FIXED_ONE - p), FIXED_ONE as int);
                    lemma_div_is_ordered(
                        4 * p * (FIXED_ONE - p),
                        FIXED_ONE * FIXED_ONE,
                        FIXED_ONE as int,
                    );
                    lemma_div_multiples_vanish(FIXED_ONE as int, FIXED_ONE as int);
                }
                let parabola: i64 = 4 * p * (FIXED_ONE - p);
                let inner: i64 = match parabola.checked_div_euclid(FIXED_ONE) {
                    Some(q) => q,
                    None => 0,
                };
                proof {
                    assert(0 <= SWAY_AMPLITUDE * inner <= SWAY_AMPLITUDE * FIXED_ONE)
                        by (nonlinear_arith)
                        requires
                            0 <= inner <= FIXED_ONE,
                    ;
                    lemma_div_magnitude_bounds(SWAY_AMPLITUDE * inner, FIXED_ONE as int);
                    lemma_div_is_ordered(
                        SWAY_AMPLITUDE * inner,
                        SWAY_AMPLITUDE * FIXED_ONE,
                        FIXED_ONE as int,
                    );
                    lemma_div_multiples_vanish(SWAY_AMPLITUDE as int, FIXED_ONE as int);
                    assert(SWAY_AMPLITUDE <= SPIN_FULL_TURN);
                }
                let num: i64 = SWAY_AMPLITUDE * inner;
                let q: i64 = match num.checked_div_euclid(FIXED_ONE) {
                    Some(q) => q,
                    None => 0,
                };
                q
            },
        }
    }
}

/// A transient rotation overlay waiting for its start time: everything of a
/// `Spin` except when it fires.
#[derive(Debug, Clone, PartialEq, Eq, Structural)]
pub struct SpinBuilder {
    pub duration: SongTime,
    pub direction: bool,
    pub spin_type: SpinType,
}

/// A transient rotation overlay: active strictly between `start` and
/// `start + duration`, contributing zero rotation outside that window.
#[derive(Debug, Clone, PartialEq, Eq, Structural)]
pub struct Spin {
    pub start: SongTime,
    pub duration: SongTime,
    pub direction: bool,
    pub spin_type: SpinType,
}

impl SpinBuilder {
    /// Whether this builder can produce a well-formed spin at `start`.
    pub open spec fn buildable_at(&self, start: SongTime) -> bool {
        &&& 0 < self.duration.0 <= TICK_MAX
        &&& -TICK_MAX <= start.0
        &&& start.0 + self.duration.0 <= TICK_MAX
    }

    /// Anchors the overlay at its trigger time.
    pub fn build(self, start: SongTime) -> (r: Spin)
        requires
            self.buildable_at(start),
        ensures
            r.start == start,
            r.duration == self.duration,
            r.direction == self.direction,
            r.spin_type == self.spin_type,
            r.wf(),
    {
        Spin {
            start,
            duration: self.duration,
            direction: self.direction,
            spin_type: self.spin_type,
        }
    }
}

/// The rotation a spin contributes at time `t`: exactly zero outside the
/// open window `(start, start + duration)`, and inside it the spin kind's
/// rotation at the normalized progress, negated for a counterclockwise
/// direction.
pub open spec fn spin_rotation_spec(spin: Spin, t: int) -> int {
    if !(spin.start.0 < t && t < spin.start.0 + spin.duration.0) {
        0
    } else {
        let p = (t - spin.start.0) * FIXED_ONE / (spin.duration.0 as int);
        let base = spin_type_rotation_spec(spin.spin_type, p);
        if spin.direction {
            base
        } else {
            -base
        }
    }
}

impl Spin {
    /// Whether the window bounds allow overflow-free progress arithmetic.
    pub open spec fn wf(&self) -> bool {
        &&& 0 < self.duration.0 <= TICK_MAX
        &&& -TICK_MAX <= self.start.0
        &&& self.start.0 + self.duration.0 <= TICK_MAX
    }

    /// The rotation this spin contributes at `time_val`.
    pub fn clamped_rotate(&self, time_val: &SongTime) -> (r: i64)
        requires
            self.wf(),
        ensures
            r == spin_rotation_spec(*self, time_val.0 as int),
            -SPIN_FULL_TURN <= r <= SPIN_FULL_TURN,
    {
        let t: i64 = time_val.0;
        if !(self.start.0 < t && t < self.start.0 + self.duration.0) {
            return 0;
        }
        proof {
            assert(0 <= (t - self.start.0) * FIXED_ONE <= TICK_MAX * FIXED_ONE)
                by (nonlinear_arith)
                requires
                    0 < t - self.start.0 <= TICK_MAX,
            ;
            lemma_div_magnitude_bounds(
                (t - self.start.0) * FIXED_ONE,
                self.duration.0 as int,
            );
        }
        let scaled: i64 = (t - self.start.0) * FIXED_ONE;
        let p: i64 = match scaled.checked_div_euclid(self.duration.0) {
            Some(q) => q,
            None => 0,
        };
        let base: i64 = self.spin_type.clamped_rotate(p);
        if self.direction {
            base
        } else {
            -base
        }
    }
}

/// Law: a spin contributes exactly zero rotation at any time outside its
/// window, and a nonzero rotation strictly inside it. For a sway the law is
/// stated for windows no longer than one fixed-point unit of ticks; longer
/// sways can floor to zero next to the window edges.
pub proof fn lemma_spin_windowing(spin: Spin, t: int)
    requires
        spin.wf(),
        spin.spin_type is Sway ==> spin.duration.0 <= FIXED_ONE,
    ensures
        t <= spin.start.0 || t >= spin.start.0 + spin.duration.0 ==> spin_rotation_spec(spin, t)
            == 0,
        spin.start.0 < t < spin.start.0 + spin.duration.0 ==> spin_rotation_spec(spin, t) != 0,
{
    if spin.start.0 < t < spin.start.0 + spin.duration.0 {
        let s = FIXED_ONE as int;
        let d = spin.duration.0 as int;
        let dt = t - spin.start.0;
        let p = dt * s / d;
        assert(1 <= dt <= d - 1);
        assert(dt * s >= 0) by (nonlinear_arith)
            requires
                dt >= 1,
                s >= 1,
        ;
        lemma_div_magnitude_bounds(dt * s, d);
        assert(dt * s < d * s) by (nonlinear_arith)
            requires
                dt <= d - 1,
                s >= 1,
                d >= 1,
        ;
        lemma_multiply_divide_lt(dt * s, d, s);
        assert(0 <= p < s);
        match spin.spin_type {
            SpinType::Spin => {
                assert(SPIN_FULL_TURN <= SPIN_FULL_TURN * (s - p)) by (nonlinear_arith)
                    requires
                        p < s,
                ;
                lemma_div_is_ordered(SPIN_FULL_TURN as int, SPIN_FULL_TURN * (s - p), s);
                assert(SPIN_FULL_TURN as int == 360 * s);
                lemma_div_multiples_vanish(360, s);
                assert(spin_type_rotation_spec(spin.spin_type, p) >= 360);
            },
            SpinType::Sway => {
                assert(d <= s);
                assert(dt * s >= d) by (nonlinear_arith)
                    requires
                        dt >= 1,
                        s >= d,
                        s >= 1,
                ;
                lemma_div_is_ordered(d, dt * s, d);
                lemma_div_multiples_vanish(1, d);
                assert(p >= 1);
                assert(4 * p * (s - p) - 4 * (s - 1) == 4 * ((p - 1) * (s - 1 - p)))
                    by (nonlinear_arith);
                assert((p - 1) * (s - 1 - p) >= 0) by (nonlinear_arith)
                    requires
                        1 <= p <= s - 1,
                ;
                assert(4 * p * (s - p) >= 4 * (s - 1));
                lemma_div_is_ordered(4 * (s - 1), 4 * p * (s - p), s);
                assert((4 * s - 4) / s == 3) by {
                    assert(4 * s - 4 == 3 * s + (s - 4));
                    assert((3 * s + (s - 4)) / s == 3) by (nonlinear_arith)
                        requires
                            s == 1048576,
                    ;
                }
                let inner = 4 * p * (s - p) / s;
                assert(inner >= 3);
                assert(SWAY_AMPLITUDE * inner >= SWAY_AMPLITUDE * 3) by (nonlinear_arith)
                    requires
                        inner >= 3,
                ;
                lemma_div_is_ordered(SWAY_AMPLITUDE * 3, SWAY_AMPLITUDE * inner, s);
                assert(SWAY_AMPLITUDE * 3 == 270 * s);
                lemma_div_multiples_vanish(270, s);
                assert(spin_type_rotation_spec(spin.spin_type, p) >= 270);
            },
        }
    }
}

/// The three scalars from which the per-frame lane matrix is composed, all
/// in fixed point: total rotation about the view axis, slant about the
/// horizontal axis, and zoom.
#[derive(Debug, Clone, Copy, PartialEq, Eq, Structural)]
pub struct Transform {
    pub rotation: i64,
    pub slant: i64,
    pub zoom: i64,
}

/// A request to create the lane governor: the keyframe tracks it will own
/// and the already-created lane child actor. Handling it happens on the
/// resource-owning thread, which contributes the render-target textures.
#[derive(Debug, Clone, PartialEq)]
pub struct LGInitRequest {
    pub rotation_events: TransformTrack,
    pub slant_events: TransformTrack,
    pub zoom_events: TransformTrack,
    pub lanes: Lanes,
}

impl LGInitRequest {
    /// Whether the carried tracks are well-formed.
    pub open spec fn wf(&self) -> bool {
        &&& track_wf(self.rotation_events@)
        &&& track_wf(self.slant_events@)
        &&& track_wf(self.zoom_events@)
    }

    /// The part of handling the request that does not touch the graphics
    /// context: the governor exists exactly when the window could report a
    /// size for its render-target textures, and starts with no active spin.
    pub fn handle(self, window_size: Option<(u32, u32)>) -> (r: Option<LaneGovernor>)
        ensures
            r is Some <==> window_size is Some,
            r matches Some(g) ==> {
                &&& g.rotation_events == self.rotation_events
                &&& g.slant_events == self.slant_events
                &&& g.zoom_events == self.zoom_events
                &&& g.current_spin is None
                &&& g.lanes == self.lanes
            },
    {
        match window_size {
            Some(_) => Some(
                LaneGovernor {
                    rotation_events: self.rotation_events,
                    slant_events: self.slant_events,
                    zoom_events: self.zoom_events,
                    current_spin: None,
                    lanes: self.lanes,
                },
            ),
            None => None,
        }
    }

    /// Builds the governor request from the response of the lane-creation
    /// round trip: exactly a lanes-created response yields a request, and it
    /// carries that lanes value together with the given tracks; a response
    /// of the wrong kind is the unexpected-response error; a failed round
    /// trip keeps its error.
    fn from_lanes_response(
        rotation_events: TransformTrack,
        slant_events: TransformTrack,
        zoom_events: TransformTrack,
        response: Result<WindowResponse, RequestError>,
    ) -> (r: Result<LGInitRequest, RequestError>)
        ensures
            response matches Ok(WindowResponse::LanesCreated(lanes)) ==> r matches Ok(req) && {
                &&& req.rotation_events == rotation_events
                &&& req.slant_events == slant_events
                &&& req.zoom_events == zoom_events
                &&& req.lanes == lanes
            },
            response matches Ok(WindowResponse::LaneGovernorCreated(_)) ==> r == Err::<
                LGInitRequest,
                RequestError,
            >(RequestError::UnexpectedResponse),
            response matches Err(e) ==> r == Err::<LGInitRequest, RequestError>(e),
    {
        match response {
            Ok(WindowResponse::LanesCreated(lanes)) => Ok(
                LGInitRequest { rotation_events, slant_events, zoom_events, lanes },
            ),
            Ok(WindowResponse::LaneGovernorCreated(_)) => Err(RequestError::UnexpectedResponse),
            Err(e) => Err(e),
        }
    }

    /// Gathers the keyframe tracks and creates the lane child actor by a
    /// round trip through the envelope queue. What the round trip delivered
    /// decides the result, as `from_lanes_response` states; a failure is
    /// either the channel's cancellation or a wrong-kind response.
    fn with_rsz<S: EnvelopeSink>(
        rotation_events: TransformTrack,
        slant_events: TransformTrack,
        zoom_events: TransformTrack,
        sink: &mut S,
    ) -> (r: Result<LGInitRequest, RequestError>)
        ensures
            r matches Ok(req) ==> {
                &&& req.rotation_events == rotation_events
                &&& req.slant_events == slant_events
                &&& req.zoom_events == zoom_events
            },
            r matches Err(e) ==> (e == RequestError::Canceled || e
                == RequestError::UnexpectedResponse),
    {
        let response = (WindowRequest::CreateLanes).send_then_receive(sink);
        LGInitRequest::from_lanes_response(rotation_events, slant_events, zoom_events, response)
    }

    /// A governor request with empty keyframe tracks, for trying the song
    /// state without chart data.
    pub fn debug_new<S: EnvelopeSink>(sink: &mut S) -> (r: Result<LGInitRequest, RequestError>)
        ensures
            r matches Ok(req) ==> {
                &&& req.rotation_events@.len() == 0
                &&& req.slant_events@.len() == 0
                &&& req.zoom_events@.len() == 0
                &&& req.wf()
            },
            r matches Err(e) ==> (e == RequestError::Canceled || e
                == RequestError::UnexpectedResponse),
    {
        LGInitRequest::with_rsz(Vec::new(), Vec::new(), Vec::new(), sink)
    }
}

/// The song time a render tick resolves to: the song clock when it is
/// running, and tick zero otherwise.
pub open spec fn resolved_song_time(t: GameTime) -> int {
    match t.song_time {
        Some(st) => st.0 as int,
        None => 0,
    }
}

/// The gameplay actor that owns the keyframe tracks and the optional active
/// spin, and computes the per-frame lane transform from them.
#[derive(Debug, Clone, PartialEq)]
pub struct LaneGovernor {
    pub rotation_events: TransformTrack,
    pub slant_events: TransformTrack,
    pub zoom_events: TransformTrack,
    pub current_spin: Option<Spin>,
    pub lanes: Lanes,
}

impl LaneGovernor {
    /// Well-formed tracks and, when present, a well-formed spin.
    pub open spec fn wf(&self) -> bool {
        &&& track_wf(self.rotation_events@)
        &&& track_wf(self.slant_events@)
        &&& track_wf(self.zoom_events@)
        &&& (self.current_spin matches Some(s) ==> s.wf())
    }

    /// The rotation the active spin contributes at `t`, zero without one.
    pub open spec fn rotation_adjustment_spec(&self, t: int) -> int {
        match self.current_spin {
            Some(s) => spin_rotation_spec(s, t),
            None => 0,
        }
    }

    /// The spin overlay's rotation contribution at `time`.
    pub fn get_rotation_adjustment(&self, time: &SongTime) -> (r: i64)
        requires
            self.wf(),
        ensures
            r == self.rotation_adjustment_spec(time.0 as int),
            -SPIN_FULL_TURN <= r <= SPIN_FULL_TURN,
    {
        match &self.current_spin {
            Some(spin) => spin.clamped_rotate(time),
            None => 0,
        }
    }

    /// The keyframe-driven base rotation at `time`.
    pub fn get_current_rotation(&self, time: &SongTime) -> (r: i64)
        requires
            self.wf(),
            -TICK_MAX <= time.0 <= TICK_MAX,
        ensures
            r == track_value(self.rotation_events@, time.0 as int, DEFAULT_ROTATION as int),
            -VAL_MAX <= r <= VAL_MAX,
    {
        proof {
            lemma_track_value_bounded(
                self.rotation_events@,
                time.0 as int,
                DEFAULT_ROTATION as int,
            );
        }
        track_value_at(&self.rotation_events, time, DEFAULT_ROTATION)
    }

    /// The total rotation at `time`: the keyframe-driven base rotation plus
    /// the active spin's contribution.
    pub fn get_rotation_after_adjustment(&self, time: &SongTime) -> (r: i64)
        requires
            self.wf(),
            -TICK_MAX <= time.0 <= TICK_MAX,
        ensures
            r == track_value(self.rotation_events@, time.0 as int, DEFAULT_ROTATION as int)
                + self.rotation_adjustment_spec(time.0 as int),
    {
        let base: i64 = self.get_current_rotation(time);
        let adjustment: i64 = self.get_rotation_adjustment(time);
        base + adjustment
    }

    /// The slant of the lanes at `time`.
    pub fn get_current_slant(&self, time: &SongTime) -> (r: i64)
        requires
            self.wf(),
            -TICK_MAX <= time.0 <= TICK_MAX,
        ensures
            r == track_value(self.slant_events@, time.0 as int, DEFAULT_SLANT as int),
            -VAL_MAX <= r <= VAL_MAX,
    {
        proof {
            lemma_track_value_bounded(self.slant_events@, time.0 as int, DEFAULT_SLANT as int);
        }
        track_value_at(&self.slant_events, time, DEFAULT_SLANT)
    }

    /// The zoom of the lanes at `time`.
    pub fn get_current_zoom(&self, time: &SongTime) -> (r: i64)
        requires
            self.wf(),
            -TICK_MAX <= time.0 <= TICK_MAX,
        ensures
            r == track_value(self.zoom_events@, time.0 as int, DEFAULT_ZOOM as int),
            -VAL_MAX <= r <= VAL_MAX,
    {
        proof {
            lemma_track_value_bounded(self.zoom_events@, time.0 as int, DEFAULT_ZOOM as int);
        }
        track_value_at(&self.zoom_events, time, DEFAULT_ZOOM)
    }

    /// Resolves the three scalars of the per-frame lane transform at `time`.
    /// The graphics layer composes the actual matrix from them; the degree
    /// calibration of the composition depends on these exact values.
    pub fn calculate_matrix(&self, time: &SongTime) -> (r: Transform)
        requires
            self.wf(),
            -TICK_MAX <= time.0 <= TICK_MAX,
        ensures
            r.rotation == track_value(
                self.rotation_events@,
                time.0 as int,
                DEFAULT_ROTATION as int,
            ) + self.rotation_adjustment_spec(time.0 as int),
            r.slant == track_value(self.slant_events@, time.0 as int, DEFAULT_SLANT as int),
            r.zoom == track_value(self.zoom_events@, time.0 as int, DEFAULT_ZOOM as int),
    {
        Transform {
            rotation: self.get_rotation_after_adjustment(time),
            slant: self.get_current_slant(time),
            zoom: self.get_current_zoom(time),
        }
    }
}

/// What the lane governor draws on a frame: the frame transform, the
/// pending result of the lane child's own render pass, and the target the
/// composite goes to.
pub struct LGRenderDetails {
    pub transform: Transform,
    pub lanes: OneshotReceiver<LanesRenderDetails>,
    pub color_target: RenderTarget,
}

impl ActorWrapper for LaneGovernor {
    type Payload = ();

    open spec fn update_ready(&self, payload: UpdatePayload<()>) -> bool {
        true
    }

    fn update<S: EnvelopeSink>(&mut self, payload: UpdatePayload<()>, sink: &mut S)
        ensures
            *final(self) == *old(self),
    {
    }
}

impl RenderableActorWrapper for LaneGovernor {
    type Payload = ();

    type Details = LGRenderDetails;

    open spec fn render_ready(&self, payload: RenderPayload<()>) -> bool {
        &&& self.wf()
        &&& -TICK_MAX <= resolved_song_time(payload.time) <= TICK_MAX
    }

    /// Computes the frame transform at the payload's song time, fans the
    /// render payload out to the lane child aimed at the governor's lane
    /// texture, and packages the pending child result with the transform.
    fn emit_render_details(&mut self, payload: RenderPayload<()>) -> (d: LGRenderDetails)
        ensures
            *final(self) == *old(self),
            d.color_target == payload.color_target,
            d.transform.rotation == track_value(
                old(self).rotation_events@,
                resolved_song_time(payload.time),
                DEFAULT_ROTATION as int,
            ) + old(self).rotation_adjustment_spec(resolved_song_time(payload.time)),
            d.transform.slant == track_value(
                old(self).slant_events@,
                resolved_song_time(payload.time),
                DEFAULT_SLANT as int,
            ),
            d.transform.zoom == track_value(
                old(self).zoom_events@,
                resolved_song_time(payload.time),
                DEFAULT_ZOOM as int,
            ),
    {
        let song_time: SongTime = match payload.get_time().song_time {
            Some(st) => st,
            None => SongTime(0),
        };
        let transform: Transform = self.calculate_matrix(&song_time);
        let color_target: RenderTarget = payload.color_target;
        let lanes_payload: RenderPayload<()> = payload.set_color_target(
            RenderTarget::LanesTexture,
        );
        let lanes_details: LanesRenderDetails = self.lanes.emit_render_details(lanes_payload);
        let (tx, rx) = oneshot_pair();
        oneshot_send(tx, lanes_details);
        LGRenderDetails { transform, lanes: rx, color_target }
    }
}

impl RenderDetails for LGRenderDetails {
    /// Renders bottom to top: first the lane child's layer, awaited from
    /// its pending result, then the composite of the governor's textures
    /// under the frame transform. A cancelled child is skipped: its layer
    /// is simply absent, and the composite still draws.
    fn render(self) -> (r: Vec<DrawCommand>)
        ensures
            1 <= r@.len() <= 2,
            r@.last() == (DrawCommand::LaneComposite {
                target: self.color_target,
                transform: self.transform,
            }),
            r@.len() == 2 ==> r@[0] is Lanes,
    {
        let mut cmds: Vec<DrawCommand> = Vec::new();
        match oneshot_wait(self.lanes) {
            Ok(lanes_details) => {
                let mut lanes_cmds = lanes_details.render();
                cmds.append(&mut lanes_cmds);
            },
            Err(_) => {},
        }
        cmds.push(
            DrawCommand::LaneComposite { target: self.color_target, transform: self.transform },
        );
        cmds
    }
}

/// Counts the song clock while a song plays. A stopped timer reports no
/// time at all.
#[derive(Debug, Clone, PartialEq, Eq, Structural)]
pub struct SongTimer {
    pub counter: i64,
    pub is_some: bool,
    pub freq: u32,
}

impl SongTimer {
    /// The current song time, if a song is playing.
    pub fn get_current_song_time(&self) -> (r: Option<SongTime>)
        ensures
            r == if self.is_some {
                Some(SongTime(self.counter))
            } else {
                None::<SongTime>
            },
    {
        if self.is_some {
            Some(SongTime(self.counter))
        } else {
            None
        }
    }

    /// The tick frequency of the playing song, if one is playing.
    pub fn get_freq(&self) -> (r: Option<u32>)
        ensures
            r == if self.is_some {
                Some(self.freq)
            } else {
                None::<u32>
            },
    {
        if self.is_some {
            Some(self.freq)
        } else {
            None
        }
    }

    /// A timer that has never been started.
    pub fn unstarted() -> (r: SongTimer)
        ensures
            r.counter == 0,
            !r.is_some,
            r.freq == 0,
    {
        SongTimer { counter: 0, is_some: false, freq: 0 }
    }

    /// Starts the clock at the given tick frequency.
    pub fn start(&mut self, freq: u32)
        ensures
            final(self).is_some,
            final(self).freq == freq,
            final(self).counter == old(self).counter,
    {
        self.is_some = true;
        self.freq = freq;
    }

    /// Rewinds the clock to zero without stopping it.
    pub fn reset(&mut self)
        ensures
            final(self).counter == 0,
            final(self).is_some == old(self).is_some,
            final(self).freq == old(self).freq,
    {
        self.counter = 0;
    }

    /// Stops the clock and clears everything.
    pub fn stop_and_reset(&mut self)
        ensures
            final(self).counter == 0,
            !final(self).is_some,
            final(self).freq == 0,
    {
        self.is_some = false;
        self.counter = 0;
        self.freq = 0;
    }

    /// Advances the clock by one tick.
    pub fn increment(&mut self)
        requires
            old(self).counter < i64::MAX,
        ensures
            final(self).counter == old(self).counter + 1,
            final(self).is_some == old(self).is_some,
            final(self).freq == old(self).freq,
    {
        self.counter = self.counter + 1;
    }
}

} // verus!

//! Free-look camera state: yaw, pitch and zoom.
//!
//! Angles are held as whole nanoradians, so that every update is exact. The
//! caller turns them into radians to build its look vectors and matrices.
//! The yaw is a plain running sum, unbounded: the trigonometry that turns it
//! into a direction wraps it.

use vstd::prelude::*;

verus! {

/// Narrowest vertical field of view (0.01π), in nanoradians.
pub const FOV_MIN: i64 = 31_415_927;

/// Widest vertical field of view (0.5π), in nanoradians.
pub const FOV_MAX: i64 = 1_570_796_327;

/// Lowest zoom level: the widest field of view.
pub const ZOOM_MIN: i64 = 1;

/// Highest zoom level: the narrowest field of view.
pub const ZOOM_MAX: i64 = 100;

/// Lowest pitch (-0.49π), in nanoradians: just short of looking straight down.
pub const PITCH_MIN: i64 = -1_539_380_400;

/// Highest pitch (0.49π), in nanoradians: just short of looking straight up.
pub const PITCH_MAX: i64 = 1_539_380_400;

/// Rotation per unit of input motion (0.005 rad), in nanoradians.
pub const SENSITIVITY: i64 = 5_000_000;

/// A direction of travel, relative to where the camera looks.
#[derive(Clone, Copy, Debug, PartialEq, Eq, Structural)]
pub enum Movement {
    Forward,
    Backward,
    Left,
    Right,
}

/// How far a movement goes along the look direction and along the right
/// vector, per unit of travel.
pub open spec fn movement_weights(m: Movement) -> (int, int) {
    match m {
        Movement::Forward => (1, 0),
        Movement::Backward => (-1, 0),
        Movement::Left => (0, -1),
        Movement::Right => (0, 1),
    }
}

impl Movement {
    /// The weights `(a, b)` of the displacement `a * direction + b * right`
    /// that one unit of this movement makes: backward and left are forward
    /// and right negated.
    pub fn weights(&self) -> (r: (i32, i32))
        ensures
            (r.0 as int, r.1 as int) == movement_weights(*self),
    {
        match self {
            Movement::Forward => (1, 0),
            Movement::Backward => (-1, 0),
            Movement::Left => (0, -1),
            Movement::Right => (0, 1),
        }
    }
}

/// `value` brought into `[lo, hi]`.
pub open spec fn clamped(value: int, lo: int, hi: int) -> int {
    if value < lo {
        lo
    } else if value > hi {
        hi
    } else {
        value
    }
}

fn clamp(value: i64, min: i64, max: i64) -> (r: i64)
    requires
        min <= max,
    ensures
        r == clamped(value as int, min as int, max as int),
{
    if value < min {
        return min;
    }
    if value > max {
        return max;
    }
    value
}

/// Vertical field of view for a zoom level: the linear interpolation from
/// `FOV_MAX` at `ZOOM_MIN` to `FOV_MIN` at `ZOOM_MAX`, rounded down.
pub open spec fn fov_of(zoom: int) -> int {
    (FOV_MAX * (ZOOM_MAX - zoom) + FOV_MIN * (zoom - ZOOM_MIN)) / (ZOOM_MAX - ZOOM_MIN)
}

/// What a camera is: its angles in nanoradians and its zoom level.
pub struct CameraView {
    pub yaw: int,
    pub pitch: int,
    pub zoom: int,
}

impl CameraView {
    /// Pitch and zoom are within their bounds.
    pub open spec fn wf(self) -> bool {
        &&& PITCH_MIN <= self.pitch <= PITCH_MAX
        &&& ZOOM_MIN <= self.zoom <= ZOOM_MAX
    }

    /// The camera after turning by `yaw_delta` and `pitch_delta` units of input:
    /// the yaw grows by the yaw motion, the pitch falls by
    /// the pitch motion and is clamped.
    pub open spec fn rotated(self, yaw_delta: int, pitch_delta: int) -> CameraView {
        CameraView {
            yaw: self.yaw + yaw_delta * SENSITIVITY,
            pitch: clamped(self.pitch - pitch_delta * SENSITIVITY, PITCH_MIN as int, PITCH_MAX as int),
            zoom: self.zoom,
        }
    }

    /// The camera after a zoom step of `delta` levels, clamped.
    pub open spec fn zoomed(self, delta: int) -> CameraView {
        CameraView {
            zoom: clamped(self.zoom + delta, ZOOM_MIN as int, ZOOM_MAX as int),
            ..self
        }
    }
}

/// The camera after each motion `(yaw_delta, pitch_delta)` of `motions`, in order.
pub open spec fn rotated_by_all(start: CameraView, motions: Seq<(int, int)>) -> CameraView
    decreases motions.len(),
{
    if motions.len() == 0 {
        start
    } else {
        let m = motions.last();
        rotated_by_all(start, motions.drop_last()).rotated(m.0, m.1)
    }
}

/// The camera after each zoom step of `deltas`, in order.
pub open spec fn zoomed_by_all(start: CameraView, deltas: Seq<int>) -> CameraView
    decreases deltas.len(),
{
    if deltas.len() == 0 {
        start
    } else {
        zoomed_by_all(start, deltas.drop_last()).zoomed(deltas.last())
    }
}

/// Whatever the motions, the pitch ends within `[PITCH_MIN, PITCH_MAX]`
/// (and the camera stays well formed).
pub proof fn lemma_pitch_stays_bounded(start: CameraView, motions: Seq<(int, int)>)
    requires
        start.wf(),
    ensures
        rotated_by_all(start, motions).wf(),
        PITCH_MIN <= rotated_by_all(start, motions).pitch <= PITCH_MAX,
    decreases motions.len(),
{
    if motions.len() > 0 {
        lemma_pitch_stays_bounded(start, motions.drop_last());
    }
}

/// The field of view falls strictly as the zoom rises.
pub proof fn lemma_fov_strictly_decreasing(z1: int, z2: int)
    requires
        ZOOM_MIN <= z1 < z2 <= ZOOM_MAX,
    ensures
        fov_of(z1) > fov_of(z2),
{
    let n1 = FOV_MAX * (ZOOM_MAX - z1) + FOV_MIN * (z1 - ZOOM_MIN);
    let n2 = FOV_MAX * (ZOOM_MAX - z2) + FOV_MIN * (z2 - ZOOM_MIN);
    assert(n1 - n2 == (z2 - z1) * (FOV_MAX - FOV_MIN)) by (nonlinear_arith)
        requires
            n1 == FOV_MAX * (ZOOM_MAX - z1) + FOV_MIN * (z1 - ZOOM_MIN),
            n2 == FOV_MAX * (ZOOM_MAX - z2) + FOV_MIN * (z2 - ZOOM_MIN),
    ;
    assert(n1 - n2 >= FOV_MAX - FOV_MIN) by (nonlinear_arith)
        requires
            n1 - n2 == (z2 - z1) * (FOV_MAX - FOV_MIN),
            z2 - z1 >= 1,
    ;
    assert(n1 / 99 > n2 / 99) by (nonlinear_arith)
        requires
            n1 - n2 >= 99,
    ;
}

/// The field of view spans exactly `[FOV_MIN, FOV_MAX]` over the zoom levels.
pub proof fn lemma_fov_bounds(zoom: int)
    requires
        ZOOM_MIN <= zoom <= ZOOM_MAX,
    ensures
        FOV_MIN <= fov_of(zoom) <= FOV_MAX,
        fov_of(ZOOM_MIN as int) == FOV_MAX,
        fov_of(ZOOM_MAX as int) == FOV_MIN,
{
    if zoom > ZOOM_MIN {
        lemma_fov_strictly_decreasing(ZOOM_MIN as int, zoom);
    }
    if zoom < ZOOM_MAX {
        lemma_fov_strictly_decreasing(zoom, ZOOM_MAX as int);
    }
}

/// Whatever the zoom steps, the zoom ends within `[ZOOM_MIN, ZOOM_MAX]` and
/// the field of view within `[FOV_MIN, FOV_MAX]`.
pub proof fn lemma_zoom_stays_bounded(start: CameraView, deltas: Seq<int>)
    requires
        start.wf(),
    ensures
        zoomed_by_all(start, deltas).wf(),
        ZOOM_MIN <= zoomed_by_all(start, deltas).zoom <= ZOOM_MAX,
        FOV_MIN <= fov_of(zoomed_by_all(start, deltas).zoom) <= FOV_MAX,
    decreases deltas.len(),
{
    if deltas.len() > 0 {
        lemma_zoom_stays_bounded(start, deltas.drop_last());
    }
    lemma_fov_bounds(zoomed_by_all(start, deltas).zoom);
}

/// Turning by a yaw motion and then by its opposite gives the yaw back.
pub proof fn lemma_yaw_turns_back(start: CameraView, yaw_delta: int, pitch1: int, pitch2: int)
    requires
        start.wf(),
    ensures
        start.rotated(yaw_delta, pitch1).rotated(-yaw_delta, pitch2).yaw == start.yaw,
{
    assert(yaw_delta * SENSITIVITY + (-yaw_delta) * SENSITIVITY == 0) by (nonlinear_arith);
}

/// Whether turning by `yaw_delta` units of input leaves the yaw within the
/// range of an `i128`.
pub open spec fn yaw_turn_fits(v: CameraView, yaw_delta: int) -> bool {
    i128::MIN <= v.yaw + yaw_delta * SENSITIVITY <= i128::MAX
}

/// The orientation and zoom of a free-look camera.
pub struct Camera {
    yaw: i128,
    pitch: i64,
    zoom: i64,
}

impl View for Camera {
    type V = CameraView;

    closed spec fn view(&self) -> CameraView {
        CameraView { yaw: self.yaw as int, pitch: self.pitch as int, zoom: self.zoom as int }
    }
}

impl Camera {
    /// A camera with no yaw or pitch, at the widest field of view.
    pub fn new() -> (r: Camera)
        ensures
            r@ == (CameraView { yaw: 0, pitch: 0, zoom: ZOOM_MIN as int }),
            r@.wf(),
    {
        Camera { yaw: 0, pitch: 0, zoom: ZOOM_MIN }
    }

    /// Yaw in nanoradians.
    pub fn yaw(&self) -> (r: i128)
        ensures
            r == self@.yaw,
    {
        self.yaw
    }

    /// Pitch in nanoradians, in `[PITCH_MIN, PITCH_MAX]`.
    pub fn pitch(&self) -> (r: i64)
        ensures
            r == self@.pitch,
    {
        self.pitch
    }

    /// Zoom level, in `[ZOOM_MIN, ZOOM_MAX]`.
    pub fn zoom(&self) -> (r: i64)
        ensures
            r == self@.zoom,
    {
        self.zoom
    }

    /// Changes the zoom level by `delta`, clamped to `[ZOOM_MIN, ZOOM_MAX]`.
    pub fn adjust_zoom(&mut self, delta: i32)
        requires
            old(self)@.wf(),
        ensures
            final(self)@ == old(self)@.zoomed(delta as int),
            final(self)@.wf(),
    {
        self.zoom = clamp(self.zoom + delta as i64, ZOOM_MIN, ZOOM_MAX);
    }

    /// Turns the camera by a motion of `yaw_delta` and `pitch_delta` input
    /// units: the pitch falls by `pitch_delta * SENSITIVITY` and is clamped to
    /// `[PITCH_MIN, PITCH_MAX]`; the yaw grows by `yaw_delta * SENSITIVITY`.
    pub fn rotate(&mut self, yaw_delta: i32, pitch_delta: i32)
        requires
            old(self)@.wf(),
            yaw_turn_fits(old(self)@, yaw_delta as int),
        ensures
            final(self)@ == old(self)@.rotated(yaw_delta as int, pitch_delta as int),
            final(self)@.wf(),
    {
        assert(-0x8000_0000 * SENSITIVITY <= pitch_delta * SENSITIVITY <= 0x7fff_ffff * SENSITIVITY)
            by (nonlinear_arith)
            requires
                -0x8000_0000 <= pitch_delta <= 0x7fff_ffff,
        ;
        assert(-0x8000_0000 * SENSITIVITY <= yaw_delta * SENSITIVITY <= 0x7fff_ffff * SENSITIVITY)
            by (nonlinear_arith)
            requires
                -0x8000_0000 <= yaw_delta <= 0x7fff_ffff,
        ;
        self.pitch = clamp(self.pitch - pitch_delta as i64 * SENSITIVITY, PITCH_MIN, PITCH_MAX);
        self.yaw = self.yaw + (yaw_delta as i64 * SENSITIVITY) as i128;
    }

    /// Whether `rotate` may turn the camera by `yaw_delta` units of input:
    /// the new yaw must fit in an `i128`.
    pub fn can_turn(&self, yaw_delta: i32) -> (r: bool)
        ensures
            r == yaw_turn_fits(self@, yaw_delta as int),
    {
        assert(-0x8000_0000 * SENSITIVITY <= yaw_delta * SENSITIVITY <= 0x7fff_ffff * SENSITIVITY)
            by (nonlinear_arith)
            requires
                -0x8000_0000 <= yaw_delta <= 0x7fff_ffff,
        ;
        self.yaw.checked_add((yaw_delta as i64 * SENSITIVITY) as i128).is_some()
    }

    /// Vertical field of view in nanoradians: `FOV_MAX` at the lowest zoom,
    /// `FOV_MIN` at the highest, linear in between.
    pub fn fov(&self) -> (r: i64)
        requires
            self@.wf(),
        ensures
            r == fov_of(self@.zoom),
    {
        let z = self.zoom;
        assert(0 <= FOV_MAX * (ZOOM_MAX - z) <= FOV_MAX * 99) by (nonlinear_arith)
            requires
                ZOOM_MIN <= z <= ZOOM_MAX,
        ;
        assert(0 <= FOV_MIN * (z - ZOOM_MIN) <= FOV_MIN * 99) by (nonlinear_arith)
            requires
                ZOOM_MIN <= z <= ZOOM_MAX,
        ;
        (FOV_MAX * (ZOOM_MAX - z) + FOV_MIN * (z - ZOOM_MIN)) / (ZOOM_MAX - ZOOM_MIN)
    }
}

} // verus!

//! The focus-tracking camera engine.
//!
//! A [`CameraState`] holds the configured screen region, the zoom ceiling,
//! and the in-flight tween `(from, target, progress)` of the virtual
//! camera. Reported window geometry drives [`CameraState::handle_snapshot`]
//! (the retarget decision), and the per-frame clock drives
//! [`CameraState::advance`] (the eased interpolation). Pans and zooms are
//! normalized screen fractions on the fixed-point grid of [`crate::fixed`]:
//! a pan component is the top-left offset of the visible crop in
//! `[0, SCALE]`, a zoom is the fraction of the screen edge shown, `SCALE`
//! meaning the full, unmagnified view.

use vstd::prelude::*;
use crate::fixed::{
    SCALE, clamped, clamp64, spec_smooth_step, smooth_step, spec_lerp, lerp,
    lemma_lerp_in_interval, lemma_smooth_step_bounds, lemma_lerp_endpoints,
};
use vstd::arithmetic::div_mod::{
    lemma_div_is_ordered, lemma_div_is_ordered_by_denominator, lemma_div_nonincreasing,
    lemma_fundamental_div_mod,
};

verus! {

/// Extra zoom margin kept around the focused window (`0.1`).
pub const MARGIN: i64 = 100_000;

/// Smallest change of pan or zoom (`0.001`) that restarts an animation;
/// anything below is treated as reported-geometry jitter.
pub const HYSTERESIS: i64 = 1_000;

/// Lowest accepted zoom-ceiling setting (`1.0`: no magnification).
pub const MIN_ZOOM_SETTING: i64 = 1_000_000;

/// Highest accepted zoom-ceiling setting (`5.0`: five-fold magnification).
pub const MAX_ZOOM_SETTING: i64 = 5_000_000;

/// Smallest reachable internal zoom, `1 / MAX_ZOOM_SETTING` (`0.2`).
pub const MIN_INTERNAL_ZOOM: i64 = 200_000;

/// Shortest accepted animation duration, in microseconds (`0.3 s`).
pub const MIN_ANIMATION_TIME: i64 = 300_000;

/// Longest accepted animation duration, in microseconds (`10 s`).
pub const MAX_ANIMATION_TIME: i64 = 10_000_000;

/// Largest accepted screen offset or edge length, in pixels.
pub const MAX_SCREEN_DIMENSION: u32 = 11_520;

/// One reported focused-window geometry event: the top-left corner and the
/// size of the window, in pixels of the virtual screen.
#[derive(Clone, Copy, PartialEq, Eq, Structural, Debug)]
pub struct WindowSnapshot {
    pub x: i32,
    pub y: i32,
    pub width: u32,
    pub height: u32,
}

/// Mathematical value of a [`WindowSnapshot`].
pub ghost struct SnapshotModel {
    pub x: int,
    pub y: int,
    pub width: int,
    pub height: int,
}

impl View for WindowSnapshot {
    type V = SnapshotModel;

    open spec fn view(&self) -> SnapshotModel {
        SnapshotModel {
            x: self.x as int,
            y: self.y as int,
            width: self.width as int,
            height: self.height as int,
        }
    }
}

/// Raw configuration values handed in by the settings layer: the zoom
/// ceiling as a fixed-point scalar, the screen rectangle in pixels, and the
/// animation duration in microseconds. Values may be out of range; the
/// engine clamps them on application.
#[derive(Clone, Copy, PartialEq, Eq, Structural, Debug)]
pub struct FilterSettings {
    pub zoom: i64,
    pub screen_x: i64,
    pub screen_y: i64,
    pub screen_width: i64,
    pub screen_height: i64,
    pub animation_time: i64,
}

/// Mathematical value of a [`FilterSettings`].
pub ghost struct SettingsModel {
    pub zoom: int,
    pub screen_x: int,
    pub screen_y: int,
    pub screen_width: int,
    pub screen_height: int,
    pub animation_time: int,
}

impl View for FilterSettings {
    type V = SettingsModel;

    open spec fn view(&self) -> SettingsModel {
        SettingsModel {
            zoom: self.zoom as int,
            screen_x: self.screen_x as int,
            screen_y: self.screen_y as int,
            screen_width: self.screen_width as int,
            screen_height: self.screen_height as int,
            animation_time: self.animation_time as int,
        }
    }
}

/// The camera engine's state: configuration plus the active tween.
#[derive(Clone, Copy, PartialEq, Eq, Structural, Debug)]
pub struct CameraState {
    /// Pan the active move started from.
    pub from_x: i64,
    pub from_y: i64,
    /// Pan the active move heads to.
    pub target_x: i64,
    pub target_y: i64,
    /// Pan emitted to the renderer this frame.
    pub current_x: i64,
    pub current_y: i64,
    /// Zoom the active move started from.
    pub from_zoom: i64,
    /// Zoom the active move heads to.
    pub target_zoom: i64,
    /// Zoom emitted to the renderer this frame.
    pub current_zoom: i64,
    /// Smallest zoom the user allows (`1 / zoom setting`).
    pub internal_zoom: i64,
    /// Phase of the active move in `[0, SCALE]`; `SCALE` means settled.
    pub progress: i64,
    /// Duration of a full move, in microseconds.
    pub animation_time: i64,
    /// Configured screen rectangle, in pixels.
    pub screen_x: u32,
    pub screen_y: u32,
    pub screen_width: u32,
    pub screen_height: u32,
}

/// Mathematical value of a [`CameraState`].
pub ghost struct CameraModel {
    pub from_x: int,
    pub from_y: int,
    pub target_x: int,
    pub target_y: int,
    pub current_x: int,
    pub current_y: int,
    pub from_zoom: int,
    pub target_zoom: int,
    pub current_zoom: int,
    pub internal_zoom: int,
    pub progress: int,
    pub animation_time: int,
    pub screen_x: int,
    pub screen_y: int,
    pub screen_width: int,
    pub screen_height: int,
}

impl View for CameraState {
    type V = CameraModel;

    open spec fn view(&self) -> CameraModel {
        CameraModel {
            from_x: self.from_x as int,
            from_y: self.from_y as int,
            target_x: self.target_x as int,
            target_y: self.target_y as int,
            current_x: self.current_x as int,
            current_y: self.current_y as int,
            from_zoom: self.from_zoom as int,
            target_zoom: self.target_zoom as int,
            current_zoom: self.current_zoom as int,
            internal_zoom: self.internal_zoom as int,
            progress: self.progress as int,
            animation_time: self.animation_time as int,
            screen_x: self.screen_x as int,
            screen_y: self.screen_y as int,
            screen_width: self.screen_width as int,
            screen_height: self.screen_height as int,
        }
    }
}

impl CameraModel {
    /// Well-formedness of the engine state: every tween scalar sits on its
    /// declared interval and the configuration sits on its declared bounds.
    pub open spec fn wf(self) -> bool {
        &&& 0 <= self.progress <= SCALE
        &&& 0 <= self.from_x <= SCALE
        &&& 0 <= self.from_y <= SCALE
        &&& 0 <= self.target_x <= SCALE
        &&& 0 <= self.target_y <= SCALE
        &&& 0 <= self.current_x <= SCALE
        &&& 0 <= self.current_y <= SCALE
        &&& MIN_INTERNAL_ZOOM <= self.from_zoom <= SCALE
        &&& MIN_INTERNAL_ZOOM <= self.target_zoom <= SCALE
        &&& MIN_INTERNAL_ZOOM <= self.current_zoom <= SCALE
        &&& MIN_INTERNAL_ZOOM <= self.internal_zoom <= SCALE
        &&& MIN_ANIMATION_TIME <= self.animation_time <= MAX_ANIMATION_TIME
        &&& 0 <= self.screen_x <= MAX_SCREEN_DIMENSION
        &&& 0 <= self.screen_y <= MAX_SCREEN_DIMENSION
        &&& 1 <= self.screen_width <= MAX_SCREEN_DIMENSION
        &&& 1 <= self.screen_height <= MAX_SCREEN_DIMENSION
    }
}

/// Absolute value of a difference.
pub open spec fn spec_abs(x: int) -> int {
    if x < 0 {
        -x
    } else {
        x
    }
}

/// The engine state as it is created: no pan, no magnification, the
/// default screen rectangle, the default duration, and a settled tween.
pub open spec fn spec_initial_camera() -> CameraModel {
    CameraModel {
        from_x: 0,
        from_y: 0,
        target_x: 0,
        target_y: 0,
        current_x: 0,
        current_y: 0,
        from_zoom: SCALE as int,
        target_zoom: SCALE as int,
        current_zoom: SCALE as int,
        internal_zoom: SCALE as int,
        progress: SCALE as int,
        animation_time: MIN_ANIMATION_TIME as int,
        screen_x: 0,
        screen_y: 0,
        screen_width: 1920,
        screen_height: 1080,
    }
}

/// Zoom a snapshot asks for: the larger of the window-to-region edge
/// ratios, plus the margin, forced between the zoom ceiling and the full
/// view.
pub open spec fn spec_window_zoom(st: CameraModel, s: SnapshotModel) -> int {
    let w_ratio = s.width * SCALE / st.screen_width;
    let h_ratio = s.height * SCALE / st.screen_height;
    let raw = if w_ratio >= h_ratio {
        w_ratio
    } else {
        h_ratio
    };
    clamped(raw + MARGIN, st.internal_zoom, SCALE as int)
}

/// The off-region test: only the snapshot's top-left corner is held
/// against the configured rectangle.
pub open spec fn spec_off_region(st: CameraModel, s: SnapshotModel) -> bool {
    ||| s.x > st.screen_x + st.screen_width
    ||| s.x < st.screen_x
    ||| s.y < st.screen_y
    ||| s.y > st.screen_y + st.screen_height
}

/// Horizontal window center in screen fractions:
/// `(x + width/2 - screen_x) / screen_width` on the grid.
pub open spec fn spec_center_x(st: CameraModel, s: SnapshotModel) -> int {
    (2 * (s.x - st.screen_x) + s.width) * SCALE / (2 * st.screen_width)
}

/// Vertical window center in screen fractions.
pub open spec fn spec_center_y(st: CameraModel, s: SnapshotModel) -> int {
    (2 * (s.y - st.screen_y) + s.height) * SCALE / (2 * st.screen_height)
}

/// Horizontal pan candidate: centers the window in the crop, then clamps
/// so the crop stays on the screen.
pub open spec fn spec_candidate_x(st: CameraModel, s: SnapshotModel) -> int {
    let wz = spec_window_zoom(st, s);
    clamped(spec_center_x(st, s) - wz / 2, 0, SCALE - wz)
}

/// Vertical pan candidate.
pub open spec fn spec_candidate_y(st: CameraModel, s: SnapshotModel) -> int {
    let wz = spec_window_zoom(st, s);
    clamped(spec_center_y(st, s) - wz / 2, 0, SCALE - wz)
}

/// Restart the tween from the currently shown frame toward the full,
/// unzoomed resting view.
pub open spec fn spec_retarget_rest(st: CameraModel) -> CameraModel {
    CameraModel {
        progress: 0,
        from_x: st.current_x,
        from_y: st.current_y,
        from_zoom: st.current_zoom,
        target_x: 0,
        target_y: 0,
        target_zoom: SCALE as int,
        ..st
    }
}

/// Restart the tween from the currently shown frame toward a new pan and
/// zoom destination.
pub open spec fn spec_commit(st: CameraModel, tx: int, ty: int, tz: int) -> CameraModel {
    CameraModel {
        progress: 0,
        from_x: st.current_x,
        from_y: st.current_y,
        from_zoom: st.current_zoom,
        target_x: tx,
        target_y: ty,
        target_zoom: tz,
        ..st
    }
}

/// The retarget decision for one snapshot. Off-region snapshots send the
/// camera to the resting view unless it is already resting-bound: heading
/// to the full-view zoom, or to the zero pan vector (both components
/// zero). On-region snapshots
/// commit the candidate destination only if it differs from the present
/// target by more than the hysteresis threshold in some component.
pub open spec fn spec_handle(st: CameraModel, s: SnapshotModel) -> CameraModel {
    if spec_off_region(st, s) {
        if st.target_zoom != SCALE && !(st.target_x == 0 && st.target_y == 0) {
            spec_retarget_rest(st)
        } else {
            st
        }
    } else {
        let wz = spec_window_zoom(st, s);
        let tx = spec_candidate_x(st, s);
        let ty = spec_candidate_y(st, s);
        if spec_abs(ty - st.target_y) > HYSTERESIS || spec_abs(tx - st.target_x) > HYSTERESIS
            || spec_abs(wz - st.target_zoom) > HYSTERESIS {
            spec_commit(st, tx, ty, wz)
        } else {
            st
        }
    }
}

/// One animation step of `dt` microseconds: the progress phase moves
/// forward by `dt / animation_time` (rounded up to the grid, capped at
/// `SCALE`), and the shown pan and zoom are re-interpolated at the eased
/// phase.
pub open spec fn spec_advance(st: CameraModel, dt: int) -> CameraModel {
    let p = if dt >= st.animation_time {
        SCALE as int
    } else {
        let inc = (dt * SCALE + st.animation_time - 1) / st.animation_time;
        if st.progress + inc >= SCALE {
            SCALE as int
        } else {
            st.progress + inc
        }
    };
    let e = spec_smooth_step(p);
    CameraModel {
        progress: p,
        current_x: spec_lerp(st.from_x, st.target_x, e),
        current_y: spec_lerp(st.from_y, st.target_y, e),
        current_zoom: spec_lerp(st.from_zoom, st.target_zoom, e),
        ..st
    }
}

/// Clamping and derivation of a configuration update: out-of-range values
/// are forced onto their declared bounds, the internal zoom becomes the
/// reciprocal of the zoom ceiling, and the running move is redirected to
/// that zoom from the currently shown zoom without resetting its phase.
pub open spec fn spec_apply_settings(st: CameraModel, s: SettingsModel) -> CameraModel {
    let z = clamped(s.zoom, MIN_ZOOM_SETTING as int, MAX_ZOOM_SETTING as int);
    let iz = (SCALE as int) * (SCALE as int) / z;
    CameraModel {
        from_zoom: st.current_zoom,
        target_zoom: iz,
        internal_zoom: iz,
        animation_time: clamped(s.animation_time, MIN_ANIMATION_TIME as int, MAX_ANIMATION_TIME as int),
        screen_x: clamped(s.screen_x, 0, MAX_SCREEN_DIMENSION as int),
        screen_y: clamped(s.screen_y, 0, MAX_SCREEN_DIMENSION as int),
        screen_width: clamped(s.screen_width, 1, MAX_SCREEN_DIMENSION as int),
        screen_height: clamped(s.screen_height, 1, MAX_SCREEN_DIMENSION as int),
        ..st
    }
}

impl CameraState {
    /// Well-formedness of the engine state.
    pub open spec fn wf(self) -> bool {
        self@.wf()
    }

    /// A fresh camera: full view, default configuration, settled tween.
    pub fn new() -> (r: CameraState)
        ensures
            r@ == spec_initial_camera(),
            r.wf(),
    {
        CameraState {
            from_x: 0,
            from_y: 0,
            target_x: 0,
            target_y: 0,
            current_x: 0,
            current_y: 0,
            from_zoom: SCALE,
            target_zoom: SCALE,
            current_zoom: SCALE,
            internal_zoom: SCALE,
            progress: SCALE,
            animation_time: MIN_ANIMATION_TIME,
            screen_x: 0,
            screen_y: 0,
            screen_width: 1920,
            screen_height: 1080,
        }
    }

    /// The retarget decision for one reported snapshot.
    pub fn handle_snapshot(&mut self, snap: &WindowSnapshot)
        requires
            old(self).wf(),
        ensures
            final(self)@ == spec_handle(old(self)@, snap@),
            final(self).wf(),
    {
        let sx = self.screen_x as i64;
        let sy = self.screen_y as i64;
        let sw = self.screen_width as i64;
        let sh = self.screen_height as i64;
        let x = snap.x as i64;
        let y = snap.y as i64;
        let w = snap.width as i64;
        let h = snap.height as i64;

        let w_ratio = w * SCALE / sw;
        let h_ratio = h * SCALE / sh;
        let raw = if w_ratio >= h_ratio {
            w_ratio
        } else {
            h_ratio
        };
        proof {
            lemma_div_is_ordered(0, w * SCALE, sw as int);
            lemma_div_is_ordered(0, h * SCALE, sh as int);
            lemma_div_nonincreasing(w * SCALE, sw as int);
            lemma_div_nonincreasing(h * SCALE, sh as int);
        }
        let window_zoom = clamp64(raw + MARGIN, self.internal_zoom, SCALE);

        if x > sw + sx || x < sx || y < sy || y > sh + sy {
            if self.target_zoom != SCALE && !(self.target_x == 0 && self.target_y == 0) {
                self.progress = 0;
                self.from_zoom = self.current_zoom;
                self.target_zoom = SCALE;
                self.from_x = self.current_x;
                self.from_y = self.current_y;
                self.target_x = 0;
                self.target_y = 0;
            }
        } else {
            let cx = (2 * (x - sx) + w) * SCALE / (2 * sw);
            let cy = (2 * (y - sy) + h) * SCALE / (2 * sh);
            proof {
                lemma_div_is_ordered(0, (2 * (x - sx) + w) * SCALE, 2 * sw as int);
                lemma_div_is_ordered(0, (2 * (y - sy) + h) * SCALE, 2 * sh as int);
                lemma_div_nonincreasing((2 * (x - sx) + w) * SCALE, 2 * sw as int);
                lemma_div_nonincreasing((2 * (y - sy) + h) * SCALE, 2 * sh as int);
            }
            let target_x = clamp64(cx - window_zoom / 2, 0, SCALE - window_zoom);
            let target_y = clamp64(cy - window_zoom / 2, 0, SCALE - window_zoom);

            let dy = if target_y >= self.target_y {
                target_y - self.target_y
            } else {
                self.target_y - target_y
            };
            let dx = if target_x >= self.target_x {
                target_x - self.target_x
            } else {
                self.target_x - target_x
            };
            let dz = if window_zoom >= self.target_zoom {
                window_zoom - self.target_zoom
            } else {
                self.target_zoom - window_zoom
            };
            if dy > HYSTERESIS || dx > HYSTERESIS || dz > HYSTERESIS {
                self.progress = 0;
                self.from_zoom = self.current_zoom;
                self.target_zoom = window_zoom;
                self.from_x = self.current_x;
                self.from_y = self.current_y;
                self.target_x = target_x;
                self.target_y = target_y;
            }
        }
    }

    /// One animation step of `dt` microseconds.
    pub fn advance(&mut self, dt: u64)
        requires
            old(self).wf(),
        ensures
            final(self)@ == spec_advance(old(self)@, dt as int),
            final(self).wf(),
    {
        if dt >= self.animation_time as u64 {
            self.progress = SCALE;
        } else {
            let inc = ((dt as i64) * SCALE + self.animation_time - 1) / self.animation_time;
            proof {
                lemma_div_is_ordered(
                    0,
                    (dt as i64) * SCALE + self.animation_time - 1,
                    self.animation_time as int,
                );
            }
            if self.progress + inc >= SCALE {
                self.progress = SCALE;
            } else {
                self.progress = self.progress + inc;
            }
        }
        let eased = smooth_step(self.progress);
        proof {
            lemma_lerp_in_interval(
                self@.from_zoom,
                self@.target_zoom,
                eased as int,
                MIN_INTERNAL_ZOOM as int,
                SCALE as int,
            );
        }
        self.current_x = lerp(self.from_x, self.target_x, eased);
        self.current_y = lerp(self.from_y, self.target_y, eased);
        self.current_zoom = lerp(self.from_zoom, self.target_zoom, eased);
    }

    /// Apply a configuration update. The running move keeps its phase: if
    /// it had already settled, the new zoom destination takes effect on the
    /// very next frame without easing.
    pub fn apply_settings(&mut self, settings: &FilterSettings)
        requires
            old(self).wf(),
        ensures
            final(self)@ == spec_apply_settings(old(self)@, settings@),
            final(self).wf(),
    {
        let z = clamp64(settings.zoom, MIN_ZOOM_SETTING, MAX_ZOOM_SETTING);
        let iz = SCALE * SCALE / z;
        proof {
            lemma_div_is_ordered_by_denominator(
                (SCALE as int) * (SCALE as int),
                z as int,
                MAX_ZOOM_SETTING as int,
            );
            lemma_div_is_ordered_by_denominator(
                (SCALE as int) * (SCALE as int),
                MIN_ZOOM_SETTING as int,
                z as int,
            );
        }
        self.from_zoom = self.current_zoom;
        self.target_zoom = iz;
        self.internal_zoom = iz;
        self.animation_time = clamp64(settings.animation_time, MIN_ANIMATION_TIME, MAX_ANIMATION_TIME);
        self.screen_x = clamp64(settings.screen_x, 0, MAX_SCREEN_DIMENSION as i64) as u32;
        self.screen_y = clamp64(settings.screen_y, 0, MAX_SCREEN_DIMENSION as i64) as u32;
        self.screen_width = clamp64(settings.screen_width, 1, MAX_SCREEN_DIMENSION as i64) as u32;
        self.screen_height = clamp64(settings.screen_height, 1, MAX_SCREEN_DIMENSION as i64) as u32;
    }
}

/// The camera crop never leaves the screen: for every snapshot whose
/// origin lies inside the configured region (and for every other snapshot
/// as well), both candidate pan components lie in
/// `[0, SCALE - window_zoom]`, and the window zoom itself lies between the
/// configured ceiling and the full view.
pub proof fn lemma_candidate_pan_in_bounds(st: CameraModel, s: SnapshotModel)
    requires
        st.wf(),
    ensures
        MIN_INTERNAL_ZOOM <= spec_window_zoom(st, s) <= SCALE,
        0 <= spec_candidate_x(st, s) <= SCALE - spec_window_zoom(st, s),
        0 <= spec_candidate_y(st, s) <= SCALE - spec_window_zoom(st, s),
{
}

/// Feeding the engine the same snapshot twice in a row changes nothing the
/// second time: a committed target matches the snapshot's own candidate,
/// so the hysteresis gate (or the resting-state gate) blocks a restart,
/// and the animation phase is not reset.
pub proof fn lemma_handle_snapshot_idempotent(st: CameraModel, s: SnapshotModel)
    requires
        st.wf(),
    ensures
        spec_handle(spec_handle(st, s), s) == spec_handle(st, s),
{
    let st1 = spec_handle(st, s);
    assert(st1.screen_x == st.screen_x && st1.screen_y == st.screen_y
        && st1.screen_width == st.screen_width && st1.screen_height == st.screen_height
        && st1.internal_zoom == st.internal_zoom);
    assert(spec_window_zoom(st1, s) == spec_window_zoom(st, s));
    assert(spec_center_x(st1, s) == spec_center_x(st, s));
    assert(spec_center_y(st1, s) == spec_center_y(st, s));
}

/// An off-region snapshot that arrives while the camera is heading to a
/// magnified target away from the resting pan restarts the move from the
/// currently shown frame toward the full resting view.
pub proof fn lemma_off_region_retargets_rest(st: CameraModel, s: SnapshotModel)
    requires
        spec_off_region(st, s),
        st.target_zoom != SCALE,
        st.target_x != 0 || st.target_y != 0,
    ensures
        spec_handle(st, s) == spec_retarget_rest(st),
        spec_handle(st, s).progress == 0,
        spec_handle(st, s).target_x == 0,
        spec_handle(st, s).target_y == 0,
        spec_handle(st, s).target_zoom == SCALE,
        spec_handle(st, s).from_x == st.current_x,
        spec_handle(st, s).from_y == st.current_y,
        spec_handle(st, s).from_zoom == st.current_zoom,
{
}

/// An off-region snapshot that arrives while the camera is already
/// resting-bound (a full-view zoom target, or the zero target-pan vector)
/// leaves the state untouched: the phase keeps advancing toward the
/// existing target.
pub proof fn lemma_resting_target_kept(st: CameraModel, s: SnapshotModel)
    requires
        spec_off_region(st, s),
        st.target_zoom == SCALE || (st.target_x == 0 && st.target_y == 0),
    ensures
        spec_handle(st, s) == st,
{
}

/// The camera crop described by each pair of the tween lies on the
/// screen: pan offset plus zoom never exceed the full edge length. Holds
/// from creation through every snapshot decision and every animation
/// step. A configuration update may break it by design — the pan targets
/// are not recomputed when the zoom ceiling changes — until the next
/// committed retarget restores it.
pub open spec fn spec_crop_within_screen(st: CameraModel) -> bool {
    &&& st.from_x + st.from_zoom <= SCALE
    &&& st.from_y + st.from_zoom <= SCALE
    &&& st.target_x + st.target_zoom <= SCALE
    &&& st.target_y + st.target_zoom <= SCALE
    &&& st.current_x + st.current_zoom <= SCALE
    &&& st.current_y + st.current_zoom <= SCALE
}

/// A fresh camera frames exactly the whole screen.
pub proof fn lemma_initial_crop_within_screen()
    ensures
        spec_initial_camera().wf(),
        spec_crop_within_screen(spec_initial_camera()),
{
}

/// The retarget decision keeps the crop on the screen: a committed
/// destination is clamped there, the resting view fills the screen
/// exactly, and the move restarts from the frame currently shown.
pub proof fn lemma_handle_keeps_crop_within_screen(st: CameraModel, s: SnapshotModel)
    requires
        st.wf(),
        spec_crop_within_screen(st),
    ensures
        spec_crop_within_screen(spec_handle(st, s)),
{
    lemma_candidate_pan_in_bounds(st, s);
}

/// The animation step keeps the crop on the screen: interpolating the
/// pan and the zoom with one shared eased phase cannot push their sum
/// past either endpoint's bound.
pub proof fn lemma_advance_keeps_crop_within_screen(st: CameraModel, dt: int)
    requires
        st.wf(),
        spec_crop_within_screen(st),
        dt >= 0,
    ensures
        spec_crop_within_screen(spec_advance(st, dt)),
{
    let r = spec_advance(st, dt);
    lemma_smooth_step_bounds(r.progress);
    let e = spec_smooth_step(r.progress);
    crate::fixed::lemma_lerp_sum_le(st.from_x, st.target_x, st.from_zoom, st.target_zoom, e, SCALE as int);
    crate::fixed::lemma_lerp_sum_le(st.from_y, st.target_y, st.from_zoom, st.target_zoom, e, SCALE as int);
}

/// The animation engine driven over a whole sequence of frame times.
pub open spec fn spec_advance_seq(st: CameraModel, dts: Seq<int>) -> CameraModel
    decreases dts.len(),
{
    if dts.len() == 0 {
        st
    } else {
        spec_advance(spec_advance_seq(st, dts.drop_last()), dts.last())
    }
}

/// Total of a sequence of frame times.
pub open spec fn spec_sum(dts: Seq<int>) -> int
    decreases dts.len(),
{
    if dts.len() == 0 {
        0int
    } else {
        spec_sum(dts.drop_last()) + dts.last()
    }
}

/// One animation step keeps the state well formed and never moves the
/// phase backward; the tween endpoints and the configuration stay as they
/// were, and the phase, once settled, stays settled.
pub proof fn lemma_advance_wf(st: CameraModel, dt: int)
    requires
        st.wf(),
        dt >= 0,
    ensures
        spec_advance(st, dt).wf(),
        spec_advance(st, dt).progress >= st.progress,
        spec_advance(st, dt) == (CameraModel {
            progress: spec_advance(st, dt).progress,
            current_x: spec_advance(st, dt).current_x,
            current_y: spec_advance(st, dt).current_y,
            current_zoom: spec_advance(st, dt).current_zoom,
            ..st
        }),
{
    let t = st.animation_time;
    let r = spec_advance(st, dt);
    if dt < t {
        let num = dt * SCALE + t - 1;
        assert(num >= 0) by (nonlinear_arith)
            requires dt >= 0 && t >= 1 && num == dt * SCALE + t - 1;
        lemma_div_is_ordered(0, num, t);
    }
    lemma_smooth_step_bounds(r.progress);
    lemma_lerp_in_interval(st.from_x, st.target_x, spec_smooth_step(r.progress), 0, SCALE as int);
    lemma_lerp_in_interval(st.from_y, st.target_y, spec_smooth_step(r.progress), 0, SCALE as int);
    lemma_lerp_in_interval(
        st.from_zoom,
        st.target_zoom,
        spec_smooth_step(r.progress),
        MIN_INTERNAL_ZOOM as int,
        SCALE as int,
    );
}

/// Lower bound of one animation step: either the phase saturates, or it
/// gains at least `dt / animation_time`, measured without rounding as
/// `animation_time * progress` against `SCALE * dt`.
proof fn lemma_advance_progress_gain(st: CameraModel, dt: int)
    requires
        st.wf(),
        dt >= 0,
    ensures
        spec_advance(st, dt).progress == SCALE
            || st.animation_time * spec_advance(st, dt).progress
                >= st.animation_time * st.progress + SCALE * dt,
{
    let t = st.animation_time;
    let r = spec_advance(st, dt);
    if dt < t && st.progress + (dt * SCALE + t - 1) / t < SCALE {
        let num = dt * SCALE + t - 1;
        let inc = num / t;
        lemma_fundamental_div_mod(num, t);
        let rem = num % t;
        assert(t * inc == num - rem);
        assert(t * inc >= dt * SCALE);
        assert(t * r.progress == t * st.progress + t * inc) by (nonlinear_arith)
            requires r.progress == st.progress + inc;
        assert(SCALE * dt == dt * SCALE) by (nonlinear_arith);
    }
}

/// Driving the engine over a sequence of non-negative frame times keeps
/// the state well formed, leaves the tween endpoints and configuration
/// untouched, and accumulates at least the unrounded phase gain
/// `SCALE * spec_sum(dts) / animation_time` unless the phase saturates.
proof fn lemma_advance_seq_progress(st: CameraModel, dts: Seq<int>)
    requires
        st.wf(),
        forall|i: int| 0 <= i < dts.len() ==> dts[i] >= 0,
    ensures
        spec_advance_seq(st, dts).wf(),
        spec_advance_seq(st, dts) == (CameraModel {
            progress: spec_advance_seq(st, dts).progress,
            current_x: spec_advance_seq(st, dts).current_x,
            current_y: spec_advance_seq(st, dts).current_y,
            current_zoom: spec_advance_seq(st, dts).current_zoom,
            ..st
        }),
        spec_advance_seq(st, dts).progress == SCALE
            || st.animation_time * spec_advance_seq(st, dts).progress
                >= st.animation_time * st.progress + SCALE * spec_sum(dts),
    decreases dts.len(),
{
    if dts.len() == 0 {
        assert(spec_advance_seq(st, dts) == st);
    } else {
        let prefix = dts.drop_last();
        let last = dts.last();
        assert(forall|i: int| 0 <= i < prefix.len() ==> prefix[i] >= 0);
        lemma_advance_seq_progress(st, prefix);
        let mid = spec_advance_seq(st, prefix);
        lemma_advance_wf(mid, last);
        lemma_advance_progress_gain(mid, last);
        let r = spec_advance(mid, last);
        let t = st.animation_time;
        if r.progress != SCALE {
            assert(mid.progress != SCALE || r.progress >= mid.progress);
            if mid.progress == SCALE {
                assert(r.progress >= SCALE && r.progress <= SCALE);
            } else {
                assert(t * r.progress >= t * mid.progress + SCALE * last);
                assert(t * mid.progress >= t * st.progress + SCALE * spec_sum(prefix));
                assert(spec_sum(dts) == spec_sum(prefix) + last);
            }
        }
    }
}

/// A settled tween is a fixed point of the animation engine: once the
/// phase has saturated and the shown frame equals the target, further
/// steps of any length change nothing, so the engine is safe to keep
/// re-evaluating every frame.
pub proof fn lemma_advance_idempotent_once_converged(st: CameraModel, dt: int)
    requires
        st.wf(),
        dt >= 0,
        st.progress == SCALE,
        st.current_x == st.target_x,
        st.current_y == st.target_y,
        st.current_zoom == st.target_zoom,
    ensures
        spec_advance(st, dt) == st,
{
    let r = spec_advance(st, dt);
    if dt < st.animation_time {
        let num = dt * SCALE + st.animation_time - 1;
        assert(num >= 0) by (nonlinear_arith)
            requires dt >= 0 && st.animation_time >= 1 && num == dt * SCALE + st.animation_time - 1;
        lemma_div_is_ordered(0, num, st.animation_time);
    }
    assert(r.progress == SCALE);
    lemma_smooth_step_bounds(SCALE as int);
    lemma_lerp_endpoints(st.from_x, st.target_x);
    lemma_lerp_endpoints(st.from_y, st.target_y);
    lemma_lerp_endpoints(st.from_zoom, st.target_zoom);
}

/// Convergence: any sequence of non-negative frame times whose total
/// reaches the configured animation duration settles the tween exactly:
/// the phase saturates at `SCALE` and the shown pan and zoom equal the
/// target pan and zoom the engine was heading to.
pub proof fn lemma_animation_converges(st: CameraModel, dts: Seq<int>)
    requires
        st.wf(),
        forall|i: int| 0 <= i < dts.len() ==> dts[i] >= 0,
        spec_sum(dts) >= st.animation_time,
    ensures
        spec_advance_seq(st, dts).progress == SCALE,
        spec_advance_seq(st, dts).current_x == st.target_x,
        spec_advance_seq(st, dts).current_y == st.target_y,
        spec_advance_seq(st, dts).current_zoom == st.target_zoom,
{
    let t = st.animation_time;
    let r = spec_advance_seq(st, dts);
    lemma_advance_seq_progress(st, dts);
    if r.progress != SCALE {
        assert(t * r.progress >= t * st.progress + SCALE * spec_sum(dts));
        assert(SCALE * spec_sum(dts) >= SCALE * t) by (nonlinear_arith)
            requires spec_sum(dts) >= t && t >= 1;
        assert(t * st.progress >= 0) by (nonlinear_arith)
            requires t >= 1 && st.progress >= 0;
        assert(t * r.progress >= SCALE * t);
        assert(r.progress >= SCALE) by (nonlinear_arith)
            requires t >= 1 && t * r.progress >= SCALE * t;
        assert(false);
    }
    if dts.len() == 0 {
        assert(spec_sum(dts) == 0);
        assert(false);
    }
    let prefix = dts.drop_last();
    let last = dts.last();
    assert(forall|i: int| 0 <= i < prefix.len() ==> prefix[i] >= 0);
    lemma_advance_seq_progress(st, prefix);
    let mid = spec_advance_seq(st, prefix);
    assert(r == spec_advance(mid, last));
    assert(mid.target_x == st.target_x && mid.target_y == st.target_y
        && mid.target_zoom == st.target_zoom && mid.from_x == st.from_x
        && mid.from_y == st.from_y && mid.from_zoom == st.from_zoom);
    lemma_smooth_step_bounds(r.progress);
    assert(spec_smooth_step(r.progress) == SCALE);
    lemma_lerp_endpoints(mid.from_x, mid.target_x);
    lemma_lerp_endpoints(mid.from_y, mid.target_y);
    lemma_lerp_endpoints(mid.from_zoom, mid.target_zoom);
}

} // verus!

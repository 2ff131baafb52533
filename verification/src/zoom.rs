//! The camera-zoom rules, one call per frame: digit keys one to three set
//! preset scales directly, four and five retarget the scale with a short
//! tween starting from the current value, the reset key restores scale one,
//! and two held keys damp the scale in or out by a fixed factor each frame.
//! A second per-frame call drives the attached tween and writes the
//! interpolated scale back, dropping the tween once it completes.

use vstd::prelude::*;

verus! {

use crate::easing::EaseFunction;
use crate::fixed::in_range;
use crate::fixed::mul_ratio;
use crate::fixed::mul_ratio_spec;
use crate::fixed::STEP_LIMIT;
use crate::input::InputState;
use crate::input::Key;
use crate::lens::TransformProjectionLens;
use crate::tween::AnimLens;
use crate::tween::Tween;

/// How long an animated camera-scale jump runs, in milliseconds.
pub const CAMERA_MOVE_TIME: u64 = 100;

/// The camera's animatable state: the projection's scale in millionths,
/// and the scale tween attached to it, if one is active.
#[derive(Clone, Copy, Debug)]
pub struct CameraState {
    pub scale: i64,
    pub tween: Option<Tween>,
}

/// The scale is in range and any attached tween is a well-formed
/// projection-scale tween.
pub open spec fn cam_wf(c: CameraState) -> bool {
    &&& in_range(c.scale as int)
    &&& (c.tween matches Some(t) ==> t.wf() && t.lens is Projection)
}

/// A fresh scale tween from `start` to `end` over the camera move time.
pub open spec fn zoom_tween(easing: EaseFunction, start: i64, end: i64) -> Tween {
    Tween {
        easing,
        duration_ms: CAMERA_MOVE_TIME,
        elapsed_ms: 0,
        lens: AnimLens::Projection { proj: TransformProjectionLens { start, end } },
    }
}

/// What one frame of key handling does to the camera, with one flag per
/// recognized key, applied in the fixed order below.
pub open spec fn zoom_step_spec(
    c: CameraState,
    k1: bool,
    k2: bool,
    k3: bool,
    k4: bool,
    k5: bool,
    a: bool,
    x: bool,
    z: bool,
) -> CameraState {
    let c1 = if k1 { CameraState { scale: 900_000, ..c } } else { c };
    let c2 = if k2 { CameraState { scale: 1_400_000, ..c1 } } else { c1 };
    let c3 = if k3 { CameraState { scale: 1_300_000, ..c2 } } else { c2 };
    let c4 = if k4 {
        CameraState {
            tween: Some(zoom_tween(EaseFunction::QuadraticInOut, c3.scale, 900_000)),
            ..c3
        }
    } else {
        c3
    };
    let c5 = if k5 {
        CameraState {
            tween: Some(zoom_tween(EaseFunction::ExponentialInOut, c4.scale, 1_100_000)),
            ..c4
        }
    } else {
        c4
    };
    let c6 = if a { CameraState { scale: 1_000_000, ..c5 } } else { c5 };
    let c7 = if x {
        CameraState { scale: mul_ratio_spec(c6.scale as int, 900_000) as i64, ..c6 }
    } else {
        c6
    };
    if z {
        CameraState { scale: mul_ratio_spec(c7.scale as int, 1_100_000) as i64, ..c7 }
    } else {
        c7
    }
}

/// What driving the attached tween for `delta` milliseconds does: advance
/// it, write its sampled scale, and drop it once complete.
pub open spec fn camera_animate_spec(c: CameraState, delta: int) -> CameraState {
    match c.tween {
        None => c,
        Some(t) => {
            let t2 = t.advanced(delta);
            CameraState {
                scale: t2.scale_of() as i64,
                tween: if t2.elapsed_ms >= t2.duration_ms {
                    None
                } else {
                    Some(t2)
                },
            }
        },
    }
}

/// Handle this frame's zoom keys, in the fixed order: presets one to
/// three, the two tween triggers, the reset, then the two held damping
/// keys. A trigger key replaces any attached tween with one that starts
/// at the scale current at that point, so a re-trigger never jumps.
pub fn zoom_2d(cam: &mut CameraState, input: &InputState)
    requires
        cam_wf(*old(cam)),
        -STEP_LIMIT <= old(cam).scale <= STEP_LIMIT,
    ensures
        *final(cam) == zoom_step_spec(
            *old(cam),
            input.spec_just_pressed(Key::Key1),
            input.spec_just_pressed(Key::Key2),
            input.spec_just_pressed(Key::Key3),
            input.spec_just_pressed(Key::Key4),
            input.spec_just_pressed(Key::Key5),
            input.spec_just_pressed(Key::A),
            input.spec_pressed(Key::X),
            input.spec_pressed(Key::Z),
        ),
        cam_wf(*final(cam)),
        (input.spec_just_pressed(Key::Key4) && !input.spec_just_pressed(Key::Key5)
            && !input.spec_just_pressed(Key::Key1) && !input.spec_just_pressed(Key::Key2)
            && !input.spec_just_pressed(Key::Key3)) ==> (final(cam).tween matches Some(t)
            && t.elapsed_ms == 0 && t.lens->proj.start == old(cam).scale
            && t.lens->proj.end == 900_000),
{
    if input.just_pressed(Key::Key1) {
        cam.scale = 900_000;
    }
    if input.just_pressed(Key::Key2) {
        cam.scale = 1_400_000;
    }
    if input.just_pressed(Key::Key3) {
        cam.scale = 1_300_000;
    }
    if input.just_pressed(Key::Key4) {
        let lens = TransformProjectionLens { start: cam.scale, end: 900_000 };
        cam.tween = Some(
            Tween::new(
                EaseFunction::QuadraticInOut,
                CAMERA_MOVE_TIME,
                AnimLens::Projection { proj: lens },
            ),
        );
    }
    if input.just_pressed(Key::Key5) {
        let lens = TransformProjectionLens { start: cam.scale, end: 1_100_000 };
        cam.tween = Some(
            Tween::new(
                EaseFunction::ExponentialInOut,
                CAMERA_MOVE_TIME,
                AnimLens::Projection { proj: lens },
            ),
        );
    }
    if input.just_pressed(Key::A) {
        cam.scale = 1_000_000;
    }
    if input.pressed(Key::X) {
        cam.scale = mul_ratio(cam.scale, 900_000);
    }
    if input.pressed(Key::Z) {
        cam.scale = mul_ratio(cam.scale, 1_100_000);
    }
}

/// Drive the attached scale tween for `delta_ms` milliseconds: advance it,
/// write the interpolated scale onto the camera, and remove it once its
/// duration is spent — at which point the scale is exactly the tween's end
/// value, however the elapsed time accumulated.
pub fn camera_animate(cam: &mut CameraState, delta_ms: u64)
    requires
        cam_wf(*old(cam)),
    ensures
        *final(cam) == camera_animate_spec(*old(cam), delta_ms as int),
        cam_wf(*final(cam)),
        old(cam).tween matches Some(t) ==> (t.elapsed_ms + delta_ms >= t.duration_ms ==> (
        final(cam).scale == t.lens->proj.end && final(cam).tween is None)),
{
    if cam.tween.is_some() {
        let mut t = cam.tween.unwrap();
        t.tick(delta_ms);
        cam.scale = t.sample_scale();
        if t.completed() {
            cam.tween = None;
        } else {
            cam.tween = Some(t);
        }
    }
}

/// One whole camera frame: key handling first, then the animation driver,
/// in the scene's fixed per-frame order.
pub fn camera_frame(cam: &mut CameraState, input: &InputState, delta_ms: u64)
    requires
        cam_wf(*old(cam)),
        -STEP_LIMIT <= old(cam).scale <= STEP_LIMIT,
    ensures
        cam_wf(*final(cam)),
        *final(cam) == camera_animate_spec(
            zoom_step_spec(
                *old(cam),
                input.spec_just_pressed(Key::Key1),
                input.spec_just_pressed(Key::Key2),
                input.spec_just_pressed(Key::Key3),
                input.spec_just_pressed(Key::Key4),
                input.spec_just_pressed(Key::Key5),
                input.spec_just_pressed(Key::A),
                input.spec_pressed(Key::X),
                input.spec_pressed(Key::Z),
            ),
            delta_ms as int,
        ),
{
    zoom_2d(cam, input);
    camera_animate(cam, delta_ms);
}

/// While only the zoom-out key is held, each frame strictly shrinks a
/// positive scale and never drives it negative.
pub proof fn lemma_held_zoom_out_decreases(c: CameraState)
    requires
        1 <= c.scale,
    ensures
        ({
            let c2 = zoom_step_spec(c, false, false, false, false, false, false, true, false);
            0 <= c2.scale < c.scale
        }),
{
    crate::fixed::lemma_damp_decreases(c.scale as int);
}

/// While only the zoom-in key is held, each frame strictly grows the scale,
/// once it is at least ten millionths (below that the truncated tenth
/// vanishes, as at a scale of nine millionths).
pub proof fn lemma_held_zoom_in_increases(c: CameraState)
    requires
        10 <= c.scale <= STEP_LIMIT,
    ensures
        ({
            let c2 = zoom_step_spec(c, false, false, false, false, false, false, false, true);
            c.scale < c2.scale
        }),
{
    crate::fixed::lemma_grow_increases(c.scale as int);
}

/// No discontinuous jump on re-triggering: after an animation frame has
/// written the running tween's current interpolated scale, a frame whose
/// only event is the first trigger key starts the replacement tween
/// exactly at that written scale.
pub proof fn lemma_retrigger_continuity(c: CameraState, delta: int)
    requires
        cam_wf(c),
        0 <= delta,
    ensures
        c.tween matches Some(t) ==> ({
            let mid = camera_animate_spec(c, delta);
            let after = zoom_step_spec(mid, false, false, false, true, false, false, false, false);
            &&& after.tween matches Some(nt)
            &&& nt.elapsed_ms == 0
            &&& nt.lens->proj.start == mid.scale
            &&& mid.scale == t.advanced(delta).scale_of() as i64
        }),
{
}

} // verus!


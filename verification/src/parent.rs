//! The scene parent's per-frame rules: its translation drifts down one
//! unit each frame, two held keys pan it up or down by a fixed offset, and
//! one trigger key attaches a five-second tween that pans it two thousand
//! units further down, starting from the translation current at that
//! moment. A second per-frame call drives the attached tween and writes
//! the interpolated translation back, dropping it once complete.

use vstd::prelude::*;

verus! {

use crate::easing::EaseFunction;
use crate::fixed::STEP_LIMIT;
use crate::input::InputState;
use crate::input::Key;
use crate::lens::TransformPositionLens;
use crate::lens::Vec3Fx;
use crate::tween::AnimLens;
use crate::tween::Tween;

/// How long the triggered downward pan runs, in milliseconds.
pub const PAN_MOVE_TIME: u64 = 5_000;

/// How far the triggered pan descends, in millionths: two thousand units.
pub const PAN_DROP: i64 = 2_000_000_000;

/// The parent's animatable state: its translation in millionths, and the
/// pan tween attached to it, if one is active.
#[derive(Clone, Copy, Debug)]
pub struct ParentState {
    pub translation: Vec3Fx,
    pub tween: Option<Tween>,
}

/// The translation is in range and any attached tween is a well-formed
/// translation tween.
pub open spec fn parent_wf(p: ParentState) -> bool {
    &&& p.translation.wf()
    &&& (p.tween matches Some(t) ==> t.wf() && t.lens is Position)
}

/// Every coordinate is far enough from the range limits for one frame's
/// adjustments and the triggered pan's endpoint to stay in range.
pub open spec fn step_room(v: Vec3Fx) -> bool {
    &&& -STEP_LIMIT <= v.x <= STEP_LIMIT
    &&& -STEP_LIMIT <= v.y <= STEP_LIMIT
    &&& -STEP_LIMIT <= v.z <= STEP_LIMIT
}

/// The pan tween a trigger attaches: from the current translation to a
/// point two thousand units below it on the vertical axis.
pub open spec fn pan_tween(from: Vec3Fx) -> Tween {
    Tween {
        easing: EaseFunction::QuadraticInOut,
        duration_ms: PAN_MOVE_TIME,
        elapsed_ms: 0,
        lens: AnimLens::Position {
            pos: TransformPositionLens {
                start: from,
                end: Vec3Fx { x: 0, y: (from.y - PAN_DROP) as i64, z: 0 },
            },
        },
    }
}

/// What one frame of key handling does to the parent: the constant drift
/// down, the two held pans, then the pan trigger.
pub open spec fn parent_step_spec(
    p: ParentState,
    held_y: bool,
    held_h: bool,
    trig_p: bool,
) -> ParentState {
    let y1 = p.translation.y - 1_000_000;
    let y2 = if held_y { y1 + 9_000_000 } else { y1 };
    let y3 = if held_h { y2 - 8_000_000 } else { y2 };
    let moved = Vec3Fx { y: y3 as i64, ..p.translation };
    let p1 = ParentState { translation: moved, ..p };
    if trig_p {
        ParentState { tween: Some(pan_tween(moved)), ..p1 }
    } else {
        p1
    }
}

/// What driving the attached tween for `delta` milliseconds does: advance
/// it, write its sampled translation, and drop it once complete.
pub open spec fn parent_animate_spec(p: ParentState, delta: int) -> ParentState {
    match p.tween {
        None => p,
        Some(t) => {
            let t2 = t.advanced(delta);
            ParentState {
                translation: t2.position_of(),
                tween: if t2.elapsed_ms >= t2.duration_ms {
                    None
                } else {
                    Some(t2)
                },
            }
        },
    }
}

/// Handle this frame's pan keys: drift one unit down, pan nine units up
/// while the first key is held and eight down while the second is, and on
/// the trigger key attach the downward pan tween, starting from the
/// translation current at that point — so a re-trigger never jumps.
pub fn update_parent(p: &mut ParentState, input: &InputState)
    requires
        parent_wf(*old(p)),
        step_room(old(p).translation),
    ensures
        *final(p) == parent_step_spec(
            *old(p),
            input.spec_pressed(Key::Y),
            input.spec_pressed(Key::H),
            input.spec_just_pressed(Key::P),
        ),
        parent_wf(*final(p)),
        input.spec_just_pressed(Key::P) ==> (final(p).tween matches Some(t) && t.elapsed_ms == 0
            && t.lens->pos.start == final(p).translation),
{
    p.translation.y = p.translation.y - 1_000_000;
    if input.pressed(Key::Y) {
        p.translation.y = p.translation.y + 9_000_000;
    }
    if input.pressed(Key::H) {
        p.translation.y = p.translation.y - 8_000_000;
    }
    if input.just_pressed(Key::P) {
        let lens = TransformPositionLens {
            start: p.translation,
            end: Vec3Fx { x: 0, y: p.translation.y - PAN_DROP, z: 0 },
        };
        p.tween = Some(
            Tween::new(EaseFunction::QuadraticInOut, PAN_MOVE_TIME, AnimLens::Position { pos: lens }),
        );
    }
}

/// Drive the attached pan tween for `delta_ms` milliseconds: advance it,
/// write the interpolated translation onto the parent, and remove it once
/// its duration is spent — at which point the translation is exactly the
/// tween's end value, however the elapsed time accumulated.
pub fn parent_animate(p: &mut ParentState, delta_ms: u64)
    requires
        parent_wf(*old(p)),
    ensures
        *final(p) == parent_animate_spec(*old(p), delta_ms as int),
        parent_wf(*final(p)),
        old(p).tween matches Some(t) ==> (t.elapsed_ms + delta_ms >= t.duration_ms ==> (
        final(p).translation == t.lens->pos.end && final(p).tween is None)),
{
    if p.tween.is_some() {
        let mut t = p.tween.unwrap();
        t.tick(delta_ms);
        p.translation = t.sample_position();
        if t.completed() {
            p.tween = None;
        } else {
            p.tween = Some(t);
        }
    }
}

/// One whole parent frame: key handling first, then the animation driver,
/// in the scene's fixed per-frame order.
pub fn parent_frame(p: &mut ParentState, input: &InputState, delta_ms: u64)
    requires
        parent_wf(*old(p)),
        step_room(old(p).translation),
    ensures
        parent_wf(*final(p)),
        *final(p) == parent_animate_spec(
            parent_step_spec(
                *old(p),
                input.spec_pressed(Key::Y),
                input.spec_pressed(Key::H),
                input.spec_just_pressed(Key::P),
            ),
            delta_ms as int,
        ),
{
    update_parent(p, input);
    parent_animate(p, delta_ms);
}

} // verus!

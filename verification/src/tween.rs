//! The tween driver: a stateful clock that advances elapsed time, maps it
//! through an easing curve to a progress ratio in millionths, and samples
//! its lens at that ratio. Elapsed time is clamped at the duration, a zero
//! duration completes instantly, and a completed tween samples exactly its
//! lens's end value.

use vstd::prelude::*;

verus! {

use vstd::arithmetic::div_mod::lemma_div_pos_is_pos;
use vstd::arithmetic::div_mod::lemma_fundamental_div_mod;
use crate::easing::ease_spec;
use crate::easing::EaseFunction;
use crate::fixed::in_range;
use crate::fixed::lerp_spec;
use crate::lens::position_at;
use crate::lens::TransformPositionLens;
use crate::lens::TransformProjectionLens;
use crate::lens::Vec3Fx;

/// The closed set of animatable properties: a lens for each kind.
#[derive(Clone, Copy, Debug, PartialEq, Eq, Structural)]
pub enum AnimLens {
    /// Animates the camera projection's scale.
    Projection { proj: TransformProjectionLens },
    /// Animates a transform's translation.
    Position { pos: TransformPositionLens },
}

/// Both endpoints of the carried lens are in interpolation range.
pub open spec fn lens_wf(l: AnimLens) -> bool {
    match l {
        AnimLens::Projection { proj } => proj.wf(),
        AnimLens::Position { pos } => pos.wf(),
    }
}

/// A one-shot animation: fixed easing, duration and lens, advancing elapsed
/// time. Complete once `elapsed_ms` has reached `duration_ms`.
#[derive(Clone, Copy, Debug, PartialEq, Eq, Structural)]
pub struct Tween {
    pub easing: EaseFunction,
    pub duration_ms: u64,
    pub elapsed_ms: u64,
    pub lens: AnimLens,
}

impl Tween {
    /// Elapsed time never runs past the duration, and the lens can be
    /// sampled safely.
    pub open spec fn wf(self) -> bool {
        self.elapsed_ms <= self.duration_ms && lens_wf(self.lens)
    }

    /// The raw progress ratio in millionths: elapsed over duration,
    /// truncated; one exactly when the duration is spent or zero.
    pub open spec fn ratio_of(self) -> int {
        if self.duration_ms == 0 || self.elapsed_ms >= self.duration_ms {
            1_000_000
        } else {
            (self.elapsed_ms * 1_000_000) / (self.duration_ms as int)
        }
    }

    /// The eased progress ratio in millionths.
    pub open spec fn eased_of(self) -> int {
        ease_spec(self.easing, self.ratio_of())
    }

    /// The scale a projection tween stands at.
    pub open spec fn scale_of(self) -> int
        recommends
            self.lens is Projection,
    {
        lerp_spec(
            self.lens->proj.start as int,
            self.lens->proj.end as int,
            self.eased_of(),
        )
    }

    /// The translation a position tween stands at.
    pub open spec fn position_of(self) -> Vec3Fx
        recommends
            self.lens is Position,
    {
        position_at(self.lens->pos, self.eased_of())
    }

    /// The state this tween reaches after `delta` further milliseconds:
    /// the same tween with elapsed time advanced and clamped at the
    /// duration.
    pub open spec fn advanced(self, delta: int) -> Tween
        recommends
            0 <= delta,
    {
        if self.elapsed_ms + delta >= self.duration_ms {
            Tween { elapsed_ms: self.duration_ms, ..self }
        } else {
            Tween { elapsed_ms: (self.elapsed_ms + delta) as u64, ..self }
        }
    }

    /// A fresh tween: nothing elapsed yet.
    pub fn new(easing: EaseFunction, duration_ms: u64, lens: AnimLens) -> (t: Tween)
        requires
            lens_wf(lens),
        ensures
            t == (Tween { easing, duration_ms, elapsed_ms: 0, lens }),
            t.wf(),
    {
        Tween { easing, duration_ms, elapsed_ms: 0, lens }
    }

    /// Advance elapsed time by `delta_ms`, clamping at the duration. The
    /// easing, duration and lens never change.
    pub fn tick(&mut self, delta_ms: u64)
        requires
            old(self).wf(),
        ensures
            *final(self) == old(self).advanced(delta_ms as int),
            final(self).wf(),
            old(self).elapsed_ms + delta_ms >= old(self).duration_ms
                ==> final(self).elapsed_ms == final(self).duration_ms,
    {
        let remaining: u64 = self.duration_ms - self.elapsed_ms;
        if delta_ms >= remaining {
            self.elapsed_ms = self.duration_ms;
        } else {
            self.elapsed_ms = self.elapsed_ms + delta_ms;
        }
    }

    /// Whether the duration is spent, so the tween may be removed.
    pub fn completed(&self) -> (c: bool)
        ensures
            c == (self.elapsed_ms >= self.duration_ms),
    {
        self.elapsed_ms >= self.duration_ms
    }

    /// The current raw progress ratio in millionths.
    pub fn current_ratio(&self) -> (r: i64)
        requires
            self.wf(),
        ensures
            r == self.ratio_of(),
            0 <= r <= 1_000_000,
    {
        if self.duration_ms == 0 || self.elapsed_ms >= self.duration_ms {
            1_000_000
        } else {
            let num: u128 = (self.elapsed_ms as u128) * 1_000_000;
            let q: u128 = num / (self.duration_ms as u128);
            proof {
                let e = self.elapsed_ms as int;
                let d = self.duration_ms as int;
                lemma_div_pos_is_pos(e * 1_000_000, d);
                lemma_fundamental_div_mod(e * 1_000_000, d);
                let qq = (e * 1_000_000) / d;
                let m = (e * 1_000_000) % d;
                assert(qq < 1_000_000) by (nonlinear_arith)
                    requires
                        e * 1_000_000 == d * qq + m,
                        0 <= m < d,
                        0 <= qq,
                        0 <= e < d;
            }
            q as i64
        }
    }

    /// Sample the current scale of a projection tween. Once the duration
    /// is spent — in particular for a zero duration — this is exactly the
    /// lens's end value.
    pub fn sample_scale(&self) -> (s: i64)
        requires
            self.wf(),
            self.lens is Projection,
        ensures
            s == self.scale_of(),
            in_range(s as int),
            self.elapsed_ms >= self.duration_ms || self.duration_ms == 0 ==> s
                == self.lens->proj.end,
    {
        let r = self.current_ratio();
        let eased = self.easing.apply(r);
        match &self.lens {
            AnimLens::Projection { proj } => proj.lerp(eased),
            AnimLens::Position { .. } => unreached(),
        }
    }

    /// Sample the current translation of a position tween. Once the
    /// duration is spent — in particular for a zero duration — this is
    /// exactly the lens's end value.
    pub fn sample_position(&self) -> (p: Vec3Fx)
        requires
            self.wf(),
            self.lens is Position,
        ensures
            p == self.position_of(),
            p.wf(),
            self.elapsed_ms >= self.duration_ms || self.duration_ms == 0 ==> p
                == self.lens->pos.end,
    {
        let r = self.current_ratio();
        let eased = self.easing.apply(r);
        match &self.lens {
            AnimLens::Position { pos } => pos.lerp(eased),
            AnimLens::Projection { .. } => unreached(),
        }
    }
}

/// A projection tween whose elapsed time has reached its duration (or whose
/// duration is zero) stands exactly at its lens's end scale, whatever the
/// easing and however the time was reached.
pub proof fn lemma_completed_scale_is_end(t: Tween)
    requires
        t.wf(),
        t.lens is Projection,
        t.elapsed_ms >= t.duration_ms || t.duration_ms == 0,
    ensures
        t.scale_of() == t.lens->proj.end,
{
    crate::easing::lemma_ease_boundaries(t.easing);
    crate::fixed::lemma_lerp_bounds(
        t.lens->proj.start as int,
        t.lens->proj.end as int,
        1_000_000,
    );
}

/// A position tween whose elapsed time has reached its duration (or whose
/// duration is zero) stands exactly at its lens's end translation.
pub proof fn lemma_completed_position_is_end(t: Tween)
    requires
        t.wf(),
        t.lens is Position,
        t.elapsed_ms >= t.duration_ms || t.duration_ms == 0,
    ensures
        t.position_of() == t.lens->pos.end,
{
    crate::easing::lemma_ease_boundaries(t.easing);
    let l = t.lens->pos;
    crate::fixed::lemma_lerp_bounds(l.start.x as int, l.end.x as int, 1_000_000);
    crate::fixed::lemma_lerp_bounds(l.start.y as int, l.end.y as int, 1_000_000);
    crate::fixed::lemma_lerp_bounds(l.start.z as int, l.end.z as int, 1_000_000);
}

/// Ticking twice is ticking once with the summed delta: the tween's state —
/// and so every sampled value — depends only on cumulative elapsed time,
/// not on how it was split into ticks.
pub proof fn lemma_advance_additive(t: Tween, a: int, b: int)
    requires
        t.wf(),
        0 <= a,
        0 <= b,
    ensures
        t.advanced(a).advanced(b) == t.advanced(a + b),
{
}

/// A tween ticked with cumulative delta at least its duration is complete,
/// however the delta was split; combined with the two completion lemmas,
/// its sampled value is then exactly the lens's end value.
pub proof fn lemma_split_ticks_reach_end(t: Tween, a: int, b: int)
    requires
        t.wf(),
        0 <= a,
        0 <= b,
        t.elapsed_ms + a + b >= t.duration_ms,
    ensures
        t.advanced(a).advanced(b) == t.advanced(a + b),
        t.advanced(a).advanced(b).elapsed_ms == t.duration_ms,
        t.lens is Projection ==> t.advanced(a).advanced(b).scale_of()
            == t.lens->proj.end,
        t.lens is Position ==> t.advanced(a).advanced(b).position_of()
            == t.lens->pos.end,
{
    lemma_advance_additive(t, a, b);
    if t.lens is Projection {
        lemma_completed_scale_is_end(t.advanced(a + b));
    } else {
        lemma_completed_position_is_end(t.advanced(a + b));
    }
}

} // verus!

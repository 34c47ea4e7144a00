//! Whether an actor stands on the ground.
//!
//! Touching terrain keeps an actor grounded for a short while, so that it
//! does not count as airborne between two probes. After a lift-off the
//! ground is not probed for a while, so that the actor can get away from it.
use vstd::prelude::*;

verus! {

/// How long a touch of the ground lasts: a tenth of a second.
pub const GROUNDED_TIME: i64 = 100000;

/// How long after a lift-off the ground is not probed: a fifth of a second.
pub const AIR_TIME: i64 = 200000;

/// By how much the probe is narrower on each side than the actor: a tenth of a unit.
pub const PROBE_MARGIN: i32 = 100;

/// The timers and the measures by which an actor's footing is judged.
///
/// A timer counts as running while it is above 0. It is run down by the
/// frame time of each tick whatever is left of it, so that a timer that has
/// run out shows by how much.
#[derive(Clone, Copy, Debug, PartialEq, Eq, Structural)]
pub struct GroundedState {
    pub grounded_for: i64,
    pub air_for: i64,
    pub half_width: i32,
    pub half_height: i32,
    pub feet_depth: i32,
}

/// The box with which the ground under an actor is probed: its half
/// extents, and how far below the actor's place its centre lies.
#[derive(Clone, Copy, Debug, PartialEq, Eq, Structural)]
pub struct GroundProbe {
    pub half_width: i64,
    pub half_height: i64,
    pub depth: i32,
}

impl Default for GroundedState {
    fn default() -> (grounded: GroundedState)
        ensures
            grounded == (GroundedState {
                grounded_for: 0,
                air_for: 0,
                half_width: 0,
                half_height: 0,
                feet_depth: 0,
            }),
    {
        GroundedState { grounded_for: 0, air_for: 0, half_width: 0, half_height: 0, feet_depth: 0 }
    }
}

impl GroundedState {
    /// An actor of these measures that has not touched the ground yet.
    pub fn new(half_width: i32, half_height: i32, feet_depth: i32) -> (grounded: GroundedState)
        ensures
            grounded == (GroundedState {
                grounded_for: 0,
                air_for: 0,
                half_width,
                half_height,
                feet_depth,
            }),
    {
        GroundedState { half_width, half_height, grounded_for: 0, air_for: 0, feet_depth }
    }

    /// Whether the actor counts as standing on the ground.
    pub open spec fn grounded(self) -> bool {
        self.grounded_for > 0
    }

    /// Whether the actor counts as standing on the ground.
    pub fn on_the_ground(&self) -> (grounded: bool)
        ensures
            grounded == self.grounded(),
    {
        self.grounded_for > 0
    }

    /// The state after a lift-off: off the ground, and not probed for a while.
    pub open spec fn lifted_off(self) -> GroundedState {
        GroundedState { grounded_for: 0, air_for: AIR_TIME, ..self }
    }

    /// Takes the actor off the ground.
    pub fn lift_off(&mut self)
        ensures
            *final(self) == old(self).lifted_off(),
            !final(self).grounded(),
    {
        self.grounded_for = 0;
        self.air_for = AIR_TIME;
    }

    /// The box with which the ground under the actor is probed.
    pub open spec fn probe(self) -> GroundProbe {
        GroundProbe {
            half_width: (self.half_width - PROBE_MARGIN) as i64,
            half_height: self.half_height as i64,
            depth: self.feet_depth,
        }
    }

    /// The state after `frame_time` has passed: while the lift-off still
    /// holds, only its timer runs down; after that the timer of the last
    /// touch of the ground does.
    pub open spec fn ticked(self, frame_time: u32) -> GroundedState {
        if self.air_for > 0 {
            GroundedState { air_for: run_down(self.air_for, frame_time), ..self }
        } else {
            GroundedState { grounded_for: run_down(self.grounded_for, frame_time), ..self }
        }
    }

    /// The state after a whole tick of `frame_time` in which the probe, if
    /// there was one, found terrain under the actor or not: while the
    /// lift-off holds the terrain is of no account; after that a touch
    /// starts its timer anew.
    pub open spec fn after_tick(self, frame_time: u32, terrain: bool) -> GroundedState {
        if self.air_for <= 0 && terrain {
            self.ticked(frame_time).touched()
        } else {
            self.ticked(frame_time)
        }
    }

    /// The state after the probe has found terrain under the actor.
    pub open spec fn touched(self) -> GroundedState {
        GroundedState { grounded_for: GROUNDED_TIME, ..self }
    }

    /// Notes that the probe has found terrain under the actor.
    pub fn touch_ground(&mut self)
        ensures
            *final(self) == old(self).touched(),
            final(self).grounded(),
    {
        self.grounded_for = GROUNDED_TIME;
    }
}

/// A timer after `frame_time` has passed: the timer less the frame time,
/// or the least value of its type where that does not fit.
pub open spec fn run_down(timer: i64, frame_time: u32) -> i64 {
    if timer - frame_time < i64::MIN {
        i64::MIN
    } else {
        (timer - frame_time) as i64
    }
}

/// A timer after `frame_time` has passed.
fn run_timer_down(timer: i64, frame_time: u32) -> (left: i64)
    ensures
        left == run_down(timer, frame_time),
{
    if timer < i64::MIN + frame_time as i64 {
        i64::MIN
    } else {
        timer - frame_time as i64
    }
}

/// Lets `frame_time` pass for an actor. While the lift-off still holds there
/// is nothing to probe; after that the answer is the box with which the host
/// probes the ground, to call `touch_ground` if it finds terrain. Together
/// the two calls come to `after_tick`.
pub fn grounded_system(grounded: &mut GroundedState, frame_time: u32) -> (probe: Option<
    GroundProbe,
>)
    ensures
        *final(grounded) == old(grounded).ticked(frame_time),
        *final(grounded) == old(grounded).after_tick(frame_time, false),
        probe is Some ==> final(grounded).touched() == old(grounded).after_tick(frame_time, true),
        probe is None ==> *final(grounded) == old(grounded).after_tick(frame_time, true),
        probe == if old(grounded).air_for > 0 {
            None
        } else {
            Some(old(grounded).probe())
        },
{
    if grounded.air_for > 0 {
        grounded.air_for = run_timer_down(grounded.air_for, frame_time);
        None
    } else {
        grounded.grounded_for = run_timer_down(grounded.grounded_for, frame_time);
        Some(
            GroundProbe {
                half_width: grounded.half_width as i64 - PROBE_MARGIN as i64,
                half_height: grounded.half_height as i64,
                depth: grounded.feet_depth,
            },
        )
    }
}

} // verus!

//! What the player's keys ask for, and what the player does about it.
use crate::animation::component_types::AnimationState;
use crate::geometry::Vec2;
use crate::player::attack_behavior_tree::PlayerAttackType;
use crate::player::{PlayerState, PlayerStats};
use crate::terrain::grounded::GroundedState;
use vstd::prelude::*;

verus! {

/// The side to which the player leans.
#[derive(Clone, Copy, Debug, PartialEq, Eq, Structural)]
pub enum Tilt {
    Left,
    Level,
    Right,
}

/// What the keys ask for during a tick.
#[derive(Clone, Copy, Debug, PartialEq, Eq, Structural)]
pub struct PlayerInputState {
    pub tilt_x: Tilt,
    pub wants_attack: bool,
    pub wants_jump: bool,
}

impl Default for PlayerInputState {
    fn default() -> (input: PlayerInputState)
        ensures
            input == (PlayerInputState {
                tilt_x: Tilt::Level,
                wants_attack: false,
                wants_jump: false,
            }),
    {
        PlayerInputState { tilt_x: Tilt::Level, wants_attack: false, wants_jump: false }
    }
}

impl Tilt {
    /// The tilt as a factor: -1 to the left, 1 to the right.
    pub open spec fn sign(self) -> int {
        match self {
            Tilt::Left => -1,
            Tilt::Level => 0,
            Tilt::Right => 1,
        }
    }

    /// `speed` to the side of the tilt.
    pub fn times(&self, speed: i32) -> (velocity: i32)
        requires
            *self == Tilt::Left ==> speed > i32::MIN,
        ensures
            velocity == self.sign() * speed,
    {
        match self {
            Tilt::Left => -speed,
            Tilt::Level => 0,
            Tilt::Right => speed,
        }
    }
}

/// Reads the keys: left wins over right, the jump key counts while it is
/// held, and the attack key only in the tick in which it goes down.
pub fn player_key_input_system(
    player: &mut PlayerInputState,
    left: bool,
    right: bool,
    jump: bool,
    attack_just_pressed: bool,
)
    ensures
        *final(player) == (PlayerInputState {
            tilt_x: if left {
                Tilt::Left
            } else if right {
                Tilt::Right
            } else {
                Tilt::Level
            },
            wants_jump: jump,
            wants_attack: attack_just_pressed,
        }),
{
    if left {
        player.tilt_x = Tilt::Left;
    } else if right {
        player.tilt_x = Tilt::Right;
    } else {
        player.tilt_x = Tilt::Level;
    }
    player.wants_jump = jump;
    player.wants_attack = attack_just_pressed;
}

/// The sideways velocity of a player in the air that leans to a side: the
/// air speed to that side, unless the player is faster that way already.
pub open spec fn steered(velocity_x: i32, desired: int) -> int {
    if desired > 0 && velocity_x < desired {
        desired
    } else if desired < 0 && velocity_x > desired {
        desired
    } else {
        velocity_x as int
    }
}

/// The attack that a player on the ground begins: a slash on the spot, or
/// a running slash that keeps the player's pace.
pub open spec fn attack_begun(tilt: Tilt, velocity_x: i32) -> PlayerAttackType {
    if tilt == Tilt::Level {
        PlayerAttackType::Slash
    } else {
        PlayerAttackType::RunningSlash(velocity_x)
    }
}

/// Whether the speed that the player is to take fits its type: a player
/// under control that leans to the left takes its speed the other way
/// round, the walking speed on the ground and the air speed off it.
pub open spec fn can_move(
    stats: PlayerStats,
    state: PlayerState,
    input: PlayerInputState,
    grounded: GroundedState,
) -> bool {
    state == PlayerState::Controlled && input.tilt_x == Tilt::Left ==> if grounded.grounded() {
        stats.walk_speed > i32::MIN
    } else {
        stats.air_speed > i32::MIN
    }
}

/// Whether the speed that the player is to take fits its type.
pub fn is_movable(
    stats: &PlayerStats,
    state: &PlayerState,
    input: &PlayerInputState,
    grounded: &GroundedState,
) -> (movable: bool)
    ensures
        movable == can_move(*stats, *state, *input, *grounded),
{
    match (state, input.tilt_x) {
        (PlayerState::Controlled, Tilt::Left) => {
            if grounded.on_the_ground() {
                stats.walk_speed > i32::MIN
            } else {
                stats.air_speed > i32::MIN
            }
        },
        _ => true,
    }
}

/// Moves the player as the keys ask, and answers with the attack that the
/// player begins, if any.
///
/// Only a player under control moves. On the ground the player walks to the
/// side of the tilt, facing it, or stands; then it jumps if asked to, and
/// else attacks if asked to. In the air it can only steer.
pub fn player_movement_system(
    stats: &PlayerStats,
    state: &PlayerState,
    input: &PlayerInputState,
    grounded: &mut GroundedState,
    flip_x: &mut bool,
    animation: &mut AnimationState,
    velocity: &mut Vec2,
) -> (attack: Option<PlayerAttackType>)
    requires
        can_move(*stats, *state, *input, *old(grounded)),
    ensures
        *state != PlayerState::Controlled ==> {
            &&& attack is None
            &&& *final(grounded) == *old(grounded)
            &&& *final(flip_x) == *old(flip_x)
            &&& *final(animation) == *old(animation)
            &&& *final(velocity) == *old(velocity)
        },
        *state == PlayerState::Controlled && old(grounded).grounded() ==> {
            &&& final(velocity).x == input.tilt_x.sign() * stats.walk_speed
            &&& final(velocity).y == if input.wants_jump {
                stats.jump_speed
            } else {
                old(velocity).y
            }
            &&& *final(grounded) == if input.wants_jump {
                old(grounded).lifted_off()
            } else {
                *old(grounded)
            }
            &&& *final(flip_x) == if input.tilt_x == Tilt::Level {
                *old(flip_x)
            } else {
                input.tilt_x == Tilt::Left
            }
            &&& old(animation).goes_to(
                if input.tilt_x == Tilt::Level {
                    "Idle"@
                } else {
                    "Walk"@
                },
                true,
                *final(animation),
            )
            &&& attack == if !input.wants_jump && input.wants_attack {
                Some(attack_begun(input.tilt_x, final(velocity).x))
            } else {
                None
            }
        },
        *state == PlayerState::Controlled && !old(grounded).grounded() ==> {
            &&& attack is None
            &&& *final(grounded) == *old(grounded)
            &&& *final(animation) == *old(animation)
            &&& final(velocity).y == old(velocity).y
            &&& final(velocity).x == steered(
                old(velocity).x,
                input.tilt_x.sign() * stats.air_speed,
            )
            &&& *final(flip_x) == if final(velocity).x != old(velocity).x {
                input.tilt_x == Tilt::Left
            } else {
                *old(flip_x)
            }
        },
{
    match state {
        PlayerState::Controlled => {},
        _ => {
            return None;
        },
    }
    let tilted = match input.tilt_x {
        Tilt::Level => false,
        _ => true,
    };
    let left = match input.tilt_x {
        Tilt::Left => true,
        _ => false,
    };
    if grounded.on_the_ground() {
        if tilted {
            velocity.x = input.tilt_x.times(stats.walk_speed);
            animation.transition_to("Walk", true);
            *flip_x = left;
        } else {
            velocity.x = 0;
            animation.transition_to("Idle", true);
        }
        if input.wants_jump {
            velocity.y = stats.jump_speed;
            grounded.lift_off();
            None
        } else if input.wants_attack {
            if tilted {
                Some(PlayerAttackType::RunningSlash(velocity.x))
            } else {
                Some(PlayerAttackType::Slash)
            }
        } else {
            None
        }
    } else {
        if tilted {
            let desired_x_vel = input.tilt_x.times(stats.air_speed);
            if desired_x_vel > 0 && velocity.x < desired_x_vel {
                velocity.x = desired_x_vel;
                *flip_x = left;
            } else if desired_x_vel < 0 && velocity.x > desired_x_vel {
                velocity.x = desired_x_vel;
                *flip_x = left;
            }
        }
        None
    }
}

} // verus!

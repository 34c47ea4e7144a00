//! The player: its control state and its attack scripts.
pub mod attack_behavior_tree;
pub mod combat;
pub mod inputs;

use crate::base_bundles::{mass_of, WorldEntityBuilder, DEFAULT_GROUPS};
use crate::combat::entity::{ContactType, Health};
use crate::geometry::{Vec2, UNIT};
use crate::player::inputs::{PlayerInputState, Tilt};
use crate::terrain::grounded::GroundedState;
use vstd::prelude::*;
use vstd::string::StringExecFns;

verus! {

/// How fast the player walks, steers in the air and jumps, and how long a
/// jump takes to begin.
#[derive(Clone, Copy, Debug, PartialEq, Eq, Structural)]
pub struct PlayerStats {
    pub walk_speed: i32,
    pub air_speed: i32,
    pub jump_speed: i32,
    pub jump_delay: u32,
}

impl Default for PlayerStats {
    fn default() -> (stats: PlayerStats)
        ensures
            stats == (PlayerStats { walk_speed: 0, air_speed: 0, jump_speed: 0, jump_delay: 0 }),
    {
        PlayerStats { walk_speed: 0, air_speed: 0, jump_speed: 0, jump_delay: 0 }
    }
}

/// Who steers the player at the moment.
#[derive(Clone, Copy, Debug, PartialEq, Eq, Structural)]
pub enum PlayerState {
    /// The inputs steer the player.
    Controlled,
    /// An attack script steers the player.
    Attacking,
    /// The player was hit and is thrown until landing.
    HitStun,
}

impl PlayerState {
    /// The state once the tick has looked at the footing: a stunned player that stands
    /// on the ground is under control again, anything else stays as it is.
    pub open spec fn recovered(self, on_the_ground: bool) -> PlayerState {
        if self == PlayerState::HitStun && on_the_ground {
            PlayerState::Controlled
        } else {
            self
        }
    }

    /// Ends the hit stun of a player that has landed.
    pub fn recover(&mut self, on_the_ground: bool)
        ensures
            *final(self) == old(self).recovered(on_the_ground),
    {
        if *self == PlayerState::HitStun && on_the_ground {
            *self = PlayerState::Controlled;
        }
    }
}

/// A part of a whole: `numerator` out of `denominator`.
#[derive(Clone, Copy, Debug, PartialEq, Eq, Structural)]
pub struct Ratio {
    pub numerator: u32,
    pub denominator: u32,
}

/// All that makes up the player as it enters the world.
#[derive(Debug, PartialEq, Eq)]
pub struct PlayerSpawn {
    pub sprite_animation: String,
    /// How far in front of the backdrop the sprite is drawn.
    pub layer: i32,
    /// The size at which the sprite is drawn.
    pub scale: Ratio,
    pub world_entity: WorldEntityBuilder,
    pub contact_type: ContactType,
    pub health: Health,
    pub input: PlayerInputState,
    pub state: PlayerState,
    pub stats: PlayerStats,
    pub grounded: GroundedState,
    pub name: String,
}

/// The health with which the player enters the world.
pub const PLAYER_HEALTH: i32 = 20;

/// The height at which the player enters the world.
pub const PLAYER_SPAWN_HEIGHT: i32 = 10 * UNIT;

/// The speed at which the player walks.
pub const WALK_SPEED: i32 = 10 * UNIT;

/// The speed at which the player steers in the air.
pub const AIR_SPEED: i32 = 4 * UNIT;

/// The speed at which the player jumps off.
pub const JUMP_SPEED: i32 = 50 * UNIT;

/// The time that a jump takes to begin: 0.15 seconds.
pub const JUMP_DELAY: u32 = 150000;

/// How far below the player's place the ground is probed: a tenth of a unit.
pub const FEET_DEPTH: i32 = 100;

/// The player as it enters the world: a square of one unit, ten units
/// above the origin, under control and in full health.
pub fn spawn_player() -> (player: PlayerSpawn)
    ensures
        player.sprite_animation@ == "sprites/Player.sprite"@,
        player.layer == UNIT,
        player.scale == (Ratio { numerator: 10, denominator: 32 }),
        player.world_entity == (WorldEntityBuilder {
            radius: UNIT,
            velocity: Vec2 { x: 0, y: 0 },
            position: Vec2 { x: 0, y: PLAYER_SPAWN_HEIGHT },
            mass: mass_of(UNIT),
            collision_group: DEFAULT_GROUPS,
            collision_filter: DEFAULT_GROUPS,
            solver_group: DEFAULT_GROUPS,
            solver_filter: DEFAULT_GROUPS,
        }),
        player.contact_type == ContactType::Player,
        player.health == (Health {
            max_health: PLAYER_HEALTH,
            current_health: PLAYER_HEALTH,
            hit_stun: 0,
            invulnerability: 0,
        }),
        player.input == (PlayerInputState {
            tilt_x: Tilt::Level,
            wants_attack: false,
            wants_jump: false,
        }),
        player.state == PlayerState::Controlled,
        player.stats == (PlayerStats {
            walk_speed: WALK_SPEED,
            air_speed: AIR_SPEED,
            jump_speed: JUMP_SPEED,
            jump_delay: JUMP_DELAY,
        }),
        player.grounded == (GroundedState {
            grounded_for: 0,
            air_for: 0,
            half_width: UNIT,
            half_height: UNIT,
            feet_depth: FEET_DEPTH,
        }),
        player.name@ == "player"@,
{
    PlayerSpawn {
        sprite_animation: String::from_str("sprites/Player.sprite"),
        layer: UNIT,
        scale: Ratio { numerator: 10, denominator: 32 },
        world_entity: WorldEntityBuilder::of_size(UNIT).at_position(0, PLAYER_SPAWN_HEIGHT),
        contact_type: ContactType::Player,
        health: Health::new(PLAYER_HEALTH),
        input: PlayerInputState::default(),
        state: PlayerState::Controlled,
        stats: PlayerStats {
            walk_speed: WALK_SPEED,
            air_speed: AIR_SPEED,
            jump_speed: JUMP_SPEED,
            jump_delay: JUMP_DELAY,
        },
        grounded: GroundedState::new(UNIT, UNIT, FEET_DEPTH),
        name: String::from_str("player"),
    }
}

} // verus!

//! Minions: what they know, how they decide, and how they take a hit.
pub mod ai;
pub mod behavior_tree;

use crate::ai::powered::PoweredTree;
use crate::base_bundles::{mass_of, WorldEntityBuilder, DEFAULT_GROUPS};
use crate::combat::entity::{ContactType, Health};
use crate::geometry::{Vec2, UNIT};
use crate::minions::ai::{minion_brain, new_minion_brain};
use crate::minions::behavior_tree::{MinionThoughts, MinionTreeNode};
use crate::terrain::grounded::GroundedState;
use vstd::prelude::*;
use vstd::string::StringExecFns;

verus! {

/// A minion: how far it sees, how soon it loses heart, and which attacks
/// have hit it already.
#[derive(Debug, PartialEq, Eq)]
pub struct Minion {
    pub los_distance: i32,
    pub timidity: i32,
    pub hit_by: Vec<u32>,
}

impl Clone for Minion {
    fn clone(&self) -> (copy: Minion)
        ensures
            copy.los_distance == self.los_distance,
            copy.timidity == self.timidity,
            copy.hit_by@ == self.hit_by@,
    {
        Minion {
            los_distance: self.los_distance,
            timidity: self.timidity,
            hit_by: self.hit_by.clone(),
        }
    }
}

impl Default for Minion {
    fn default() -> (minion: Minion)
        ensures
            minion.los_distance == 0,
            minion.timidity == 0,
            minion.hit_by@ == Seq::<u32>::empty(),
    {
        Minion { los_distance: 0, timidity: 0, hit_by: Vec::new() }
    }
}

/// The live decision tree of one minion.
#[derive(Debug, PartialEq, Eq)]
pub struct MinionBrain(pub PoweredTree<MinionTreeNode>);

impl Minion {
    /// A minion that no attack has hit yet.
    pub fn new(los_distance: i32, timidity: i32) -> (minion: Minion)
        ensures
            minion.los_distance == los_distance,
            minion.timidity == timidity,
            minion.hit_by@ == Seq::<u32>::empty(),
    {
        Minion { los_distance, timidity, hit_by: Vec::new() }
    }

    /// Whether the attack with this number has hit the minion before.
    pub open spec fn was_hit_by(self, attack_id: u32) -> bool {
        self.hit_by@.contains(attack_id)
    }

    /// Whether a minion of this health has lost heart.
    pub open spec fn timid_at(self, health: i32) -> bool {
        health < self.timidity
    }

    /// Whether a minion of this health has lost heart.
    pub fn is_timid(&self, health: i32) -> (timid: bool)
        ensures
            timid == self.timid_at(health),
    {
        health < self.timidity
    }

    /// Whether the attack with this number has hit the minion before.
    pub fn has_been_hit_by(&self, attack_id: u32) -> (hit: bool)
        ensures
            hit == self.was_hit_by(attack_id),
    {
        let mut i: usize = 0;
        while i < self.hit_by.len()
            invariant
                i <= self.hit_by.len(),
                forall|j: int| 0 <= j < i ==> self.hit_by@[j] != attack_id,
            decreases self.hit_by.len() - i,
        {
            if self.hit_by[i] == attack_id {
                return true;
            }
            i = i + 1;
        }
        false
    }

    /// Records a hit by the attack with this number. An attack counts once:
    /// the answer is whether this was its first hit on the minion.
    pub fn hit(&mut self, attack_id: u32) -> (first: bool)
        ensures
            first == !old(self).was_hit_by(attack_id),
            first ==> final(self).hit_by@ == old(self).hit_by@.push(attack_id),
            !first ==> final(self).hit_by@ == old(self).hit_by@,
            final(self).was_hit_by(attack_id),
            final(self).los_distance == old(self).los_distance,
            final(self).timidity == old(self).timidity,
    {
        if self.has_been_hit_by(attack_id) {
            return false;
        }
        self.hit_by.push(attack_id);
        assert(self.hit_by@[self.hit_by@.len() - 1] == attack_id);
        true
    }
}

/// All that makes up a minion as it enters the world.
#[derive(Debug, PartialEq, Eq)]
pub struct MinionSpawn {
    pub sprite_animation: String,
    /// How far in front of the backdrop the sprite is drawn.
    pub layer: i32,
    pub world_entity: WorldEntityBuilder,
    pub contact_type: ContactType,
    pub health: Health,
    pub minion: Minion,
    pub thoughts: MinionThoughts,
    pub brain: MinionBrain,
    pub grounded: GroundedState,
    pub name: String,
}

/// The group of the minions among the bodies that push each other.
pub const MINION_GROUP: u32 = 2;

/// The health with which a minion enters the world.
pub const MINION_HEALTH: i32 = 3;

/// Half the width and height of a minion: half a unit.
pub const MINION_RADIUS: i32 = 500;

/// How far to the right of the origin a minion enters the world.
pub const MINION_SPAWN_X: i32 = 5 * UNIT;

/// The height at which a minion enters the world.
pub const MINION_SPAWN_HEIGHT: i32 = 10 * UNIT;

/// How far a minion sees.
pub const LOS_DISTANCE: i32 = 10 * UNIT;

/// How far below a minion's place the ground is probed: a tenth of a unit.
pub const FEET_DEPTH: i32 = 100;

/// A minion as it enters the world: a square of half a unit, to the right
/// of the player, pushed by its own kind only, with a brain as first made.
/// The name under which it shows is of no account to the rules.
pub fn spawn_minion() -> (minion: MinionSpawn)
    ensures
        minion.sprite_animation@ == "sprites/Minion.sprite"@,
        minion.layer == UNIT,
        minion.world_entity == (WorldEntityBuilder {
            radius: MINION_RADIUS,
            velocity: Vec2 { x: 0, y: 0 },
            position: Vec2 { x: MINION_SPAWN_X, y: MINION_SPAWN_HEIGHT },
            mass: mass_of(MINION_RADIUS),
            collision_group: DEFAULT_GROUPS,
            collision_filter: DEFAULT_GROUPS,
            solver_group: MINION_GROUP,
            solver_filter: MINION_GROUP,
        }),
        minion.contact_type == ContactType::Minion(1),
        minion.health == (Health {
            max_health: MINION_HEALTH,
            current_health: MINION_HEALTH,
            hit_stun: 0,
            invulnerability: 0,
        }),
        minion.minion.los_distance == LOS_DISTANCE,
        minion.minion.timidity == 1,
        minion.minion.hit_by@ == Seq::<u32>::empty(),
        minion.thoughts.self_at == (Vec2 { x: 0, y: 0 }),
        minion.thoughts.player_at is None,
        minion.thoughts.lunge_towards is None,
        minion.thoughts.shoot_at is None,
        !minion.thoughts.hit_stun,
        minion.thoughts.frame_time == 0,
        minion.thoughts.animation@ == Seq::<char>::empty(),
        !minion.thoughts.animation_complete,
        !minion.thoughts.idling,
        !minion.thoughts.on_the_ground,
        !minion.thoughts.timid,
        minion.brain.0@ == new_minion_brain(),
        minion.grounded == (GroundedState {
            grounded_for: 0,
            air_for: 0,
            half_width: MINION_RADIUS,
            half_height: MINION_RADIUS,
            feet_depth: FEET_DEPTH,
        }),
{
    MinionSpawn {
        sprite_animation: String::from_str("sprites/Minion.sprite"),
        layer: UNIT,
        world_entity: WorldEntityBuilder::of_size(MINION_RADIUS).at_position(
            MINION_SPAWN_X,
            MINION_SPAWN_HEIGHT,
        ).with_solver_group(MINION_GROUP).with_solver_filter(MINION_GROUP),
        contact_type: ContactType::Minion(1),
        health: Health::new(MINION_HEALTH),
        minion: Minion::new(LOS_DISTANCE, 1),
        thoughts: MinionThoughts::default(),
        brain: MinionBrain(minion_brain()),
        grounded: GroundedState::new(MINION_RADIUS, MINION_RADIUS, FEET_DEPTH),
        name: String::from_str("player"),
    }
}

} // verus!

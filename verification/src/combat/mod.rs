//! Who hurts whom when two colliders meet, and what a hit does.
pub mod entity;

use crate::combat::entity::{ContactType, Health};
use crate::geometry::{get_vec_to_target, offset_between, Offset, Vec2, UNIT};
use crate::minions::Minion;
use crate::player::attack_behavior_tree::AttackImpulses;
use crate::player::PlayerState;
use crate::terrain::grounded::GroundedState;
use vstd::prelude::*;

verus! {

/// The speed with which a hit throws its victim.
pub const HIT_LAUNCH_SPEED: i32 = 20 * UNIT;

/// One of the two colliders of a contact.
#[derive(Clone, Copy, Debug, PartialEq, Eq, Structural)]
pub enum Side {
    First,
    Second,
}

/// A hit on the player: which collider of the contact the player is, the
/// way from the other collider to the player, along which the player is
/// thrown, and the damage.
#[derive(Clone, Copy, Debug, PartialEq, Eq, Structural)]
pub struct PlayerHit {
    pub side: Side,
    pub launch_dir: Offset,
    pub damage: i32,
}

/// The hit on the player that a contact of two colliders at these places
/// and of these kinds makes, if it makes one: the player is hurt by a
/// minion or by a minion's shot, whichever of the two colliders it is.
pub open spec fn player_hit_of(
    position_a: Vec2,
    position_b: Vec2,
    a: ContactType,
    b: ContactType,
) -> Option<PlayerHit> {
    let on_first = |damage: i32|
        Some(
            PlayerHit {
                side: Side::First,
                launch_dir: offset_between(position_b, position_a),
                damage,
            },
        );
    let on_second = |damage: i32|
        Some(
            PlayerHit {
                side: Side::Second,
                launch_dir: offset_between(position_a, position_b),
                damage,
            },
        );
    match (a, b) {
        (ContactType::Player, ContactType::Minion(damage)) => on_first(damage),
        (ContactType::Player, ContactType::MinionProjectile(damage)) => on_first(damage),
        (ContactType::Minion(damage), ContactType::Player) => on_second(damage),
        (ContactType::MinionProjectile(damage), ContactType::Player) => on_second(damage),
        _ => None,
    }
}

/// The hit on the player that a contact of two colliders makes, if it makes one.
pub fn player_hit(
    position_a: &Vec2,
    position_b: &Vec2,
    a: &ContactType,
    b: &ContactType,
) -> (hit: Option<PlayerHit>)
    ensures
        hit == player_hit_of(*position_a, *position_b, *a, *b),
{
    match (a, b) {
        (ContactType::Player, ContactType::Minion(damage)) => Some(
            PlayerHit {
                side: Side::First,
                launch_dir: get_vec_to_target(position_b, position_a),
                damage: *damage,
            },
        ),
        (ContactType::Player, ContactType::MinionProjectile(damage)) => Some(
            PlayerHit {
                side: Side::First,
                launch_dir: get_vec_to_target(position_b, position_a),
                damage: *damage,
            },
        ),
        (ContactType::Minion(damage), ContactType::Player) => Some(
            PlayerHit {
                side: Side::Second,
                launch_dir: get_vec_to_target(position_a, position_b),
                damage: *damage,
            },
        ),
        (ContactType::MinionProjectile(damage), ContactType::Player) => Some(
            PlayerHit {
                side: Side::Second,
                launch_dir: get_vec_to_target(position_a, position_b),
                damage: *damage,
            },
        ),
        _ => None,
    }
}

/// The places and the kinds of two colliders, if all four are known.
pub fn get_position_hittables(
    position_a: Option<Vec2>,
    position_b: Option<Vec2>,
    hittable_a: Option<ContactType>,
    hittable_b: Option<ContactType>,
) -> (found: Option<(Vec2, Vec2, ContactType, ContactType)>)
    ensures
        found is Some <==> position_a is Some && position_b is Some && hittable_a is Some
            && hittable_b is Some,
        found is Some ==> found->0 == (
            position_a->0,
            position_b->0,
            hittable_a->0,
            hittable_b->0,
        ),
{
    match (position_a, position_b) {
        (Some(position_a), Some(position_b)) => match (hittable_a, hittable_b) {
            (Some(hittable_a), Some(hittable_b)) => Some(
                (position_a, position_b, hittable_a, hittable_b),
            ),
            _ => None,
        },
        _ => None,
    }
}

/// The velocity with which a hit from `launch_dir` throws the player: up,
/// and to the side that the hit points to.
pub open spec fn launch_velocity_of(launch_dir: Offset) -> Vec2 {
    if launch_dir.x > 0 {
        Vec2 { x: HIT_LAUNCH_SPEED, y: HIT_LAUNCH_SPEED }
    } else {
        Vec2 { x: (-HIT_LAUNCH_SPEED) as i32, y: HIT_LAUNCH_SPEED }
    }
}

/// The velocity with which a hit from `launch_dir` throws the player.
pub fn launch_velocity(launch_dir: &Offset) -> (velocity: Vec2)
    ensures
        velocity == launch_velocity_of(*launch_dir),
{
    if launch_dir.x > 0 {
        Vec2 { x: HIT_LAUNCH_SPEED, y: HIT_LAUNCH_SPEED }
    } else {
        Vec2 { x: -HIT_LAUNCH_SPEED, y: HIT_LAUNCH_SPEED }
    }
}

/// Stuns the player by a hit from `launch_dir`: the health goes down by
/// `damage`, the player is thrown, leaves the ground and loses control.
pub fn player_hit_stun(
    launch_dir: &Offset,
    damage: i32,
    health: &mut Health,
    velocity: &mut Vec2,
    grounded: &mut GroundedState,
    state: &mut PlayerState,
)
    requires
        old(health).can_take(damage),
    ensures
        *final(health) == (Health {
            current_health: (old(health).current_health - damage) as i32,
            ..*old(health)
        }),
        *final(velocity) == launch_velocity_of(*launch_dir),
        *final(grounded) == old(grounded).lifted_off(),
        *final(state) == PlayerState::HitStun,
{
    health.damage(damage);
    *velocity = launch_velocity(launch_dir);
    grounded.lift_off();
    *state = PlayerState::HitStun;
}

/// One link of the chain that leads from a collider up through its parents:
/// the entity, and whether an attack runs on it.
#[derive(Clone, Copy, Debug, PartialEq, Eq, Structural)]
pub struct Link {
    pub entity: u64,
    pub attacking: bool,
}

/// The first entity of `chain`, from `from` on, on which an attack runs.
pub open spec fn attacker_of(chain: Seq<Link>, from: nat) -> Option<u64>
    decreases chain.len() - from,
{
    if from >= chain.len() {
        None
    } else if chain[from as int].attacking {
        Some(chain[from as int].entity)
    } else {
        attacker_of(chain, from + 1)
    }
}

/// The attacker that a collider belongs to: the collider itself or the
/// nearest of its parents on which an attack runs. `chain` leads from the
/// collider upwards.
pub fn get_attacker(chain: &Vec<Link>) -> (attacker: Option<u64>)
    ensures
        attacker == attacker_of(chain@, 0),
{
    let mut i: usize = 0;
    while i < chain.len()
        invariant
            i <= chain.len(),
            attacker_of(chain@, 0) == attacker_of(chain@, i as nat),
        decreases chain.len() - i,
    {
        if chain[i].attacking {
            return Some(chain[i].entity);
        }
        i = i + 1;
    }
    None
}

/// Which of two colliders belongs to an attack and which is the minion that
/// it meets. `attacker_a` and `attacker_b` name the attacker that each
/// collider belongs to, if any; the first collider is asked first, and the
/// second only if the first belongs to no attack.
pub open spec fn attack_minion_of(
    attacker_a: Option<u64>,
    attacker_b: Option<u64>,
    minion_a: Option<u64>,
    minion_b: Option<u64>,
) -> Option<(u64, u64)> {
    if attacker_a is Some {
        if minion_b is Some {
            Some((attacker_a->0, minion_b->0))
        } else {
            None
        }
    } else if attacker_b is Some && minion_a is Some {
        Some((attacker_b->0, minion_a->0))
    } else {
        None
    }
}

/// Which of two colliders belongs to an attack and which is the minion that it meets.
pub fn get_attack_minion(
    attacker_a: Option<u64>,
    attacker_b: Option<u64>,
    minion_a: Option<u64>,
    minion_b: Option<u64>,
) -> (pair: Option<(u64, u64)>)
    ensures
        pair == attack_minion_of(attacker_a, attacker_b, minion_a, minion_b),
{
    match attacker_a {
        Some(attacker) => match minion_b {
            Some(minion) => Some((attacker, minion)),
            None => None,
        },
        None => match (attacker_b, minion_a) {
            (Some(attacker), Some(minion)) => Some((attacker, minion)),
            _ => None,
        },
    }
}

/// Whether an attack with this blackboard can meet `minion`: if it would
/// hit, the minion's health can be lowered by its damage.
pub fn can_meet(impulses: &AttackImpulses, minion: &Minion, health: &Health) -> (fits: bool)
    ensures
        fits == (!minion.was_hit_by(impulses.attack_id) ==> health.can_take(
            impulses.attack_damage,
        )),
{
    minion.has_been_hit_by(impulses.attack_id) || health.takes(impulses.attack_damage)
}

/// Lets an attack meet a minion. The first time that the attack meets this
/// minion it hits: the attack notes the minion, the minion's health goes down
/// by the attack's damage, and the minion is thrown up and leaves the ground.
/// Any later time nothing happens. The answer is whether the attack hit.
pub fn attack_hit_stun(
    impulses: &mut AttackImpulses,
    minion_id: u64,
    minion: &mut Minion,
    health: &mut Health,
    velocity: &mut Vec2,
    grounded: &mut GroundedState,
) -> (hit: bool)
    requires
        !old(minion).was_hit_by(old(impulses).attack_id) ==> old(health).can_take(
            old(impulses).attack_damage,
        ),
    ensures
        hit == !old(minion).was_hit_by(old(impulses).attack_id),
        final(minion).was_hit_by(old(impulses).attack_id),
        final(minion).los_distance == old(minion).los_distance,
        final(minion).timidity == old(minion).timidity,
        hit ==> {
            &&& final(minion).hit_by@ == old(minion).hit_by@.push(old(impulses).attack_id)
            &&& final(impulses).hit_minions@ == old(impulses).hit_minions@.push(minion_id)
            &&& *final(health) == (Health {
                current_health: (old(health).current_health - old(impulses).attack_damage) as i32,
                ..*old(health)
            })
            &&& *final(velocity) == (Vec2 { x: 0, y: HIT_LAUNCH_SPEED })
            &&& *final(grounded) == old(grounded).lifted_off()
        },
        !hit ==> {
            &&& final(minion).hit_by@ == old(minion).hit_by@
            &&& final(impulses).hit_minions@ == old(impulses).hit_minions@
            &&& *final(health) == *old(health)
            &&& *final(velocity) == *old(velocity)
            &&& *final(grounded) == *old(grounded)
        },
        *final(impulses) == (AttackImpulses {
            hit_minions: final(impulses).hit_minions,
            ..*old(impulses)
        }),
{
    if minion.hit(impulses.attack_id) {
        impulses.hit_minions.push(minion_id);
        health.damage(impulses.attack_damage);
        *velocity = Vec2 { x: 0, y: HIT_LAUNCH_SPEED };
        grounded.lift_off();
        true
    } else {
        false
    }
}

} // verus!

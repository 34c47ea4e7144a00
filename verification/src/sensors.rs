//! Sensors: the colliders that stand for a sprite's hitboxes in the world,
//! and the rule that keeps them in step with the sprite.
use crate::animation::hitboxes::Hitbox;
use crate::base_bundles::ColliderBundle;
use crate::geometry::{halved, Offset, UNIT};
use vstd::prelude::*;

verus! {

/// `n` by `d`, rounded towards zero.
pub open spec fn divided(n: int, d: int) -> int
    recommends
        d != 0,
{
    if d > 0 {
        if n >= 0 {
            n / d
        } else {
            -((-n) / d)
        }
    } else {
        if n >= 0 {
            -(n / (-d))
        } else {
            (-n) / (-d)
        }
    }
}

/// `n` by `d`, rounded towards zero.
fn divide(n: i64, d: i32) -> (q: i64)
    requires
        d != 0,
        n > i64::MIN,
    ensures
        q == divided(n as int, d as int),
{
    let size: i64 = if n >= 0 {
        n
    } else {
        -n
    };
    let by: i64 = if d > 0 {
        d as i64
    } else {
        -(d as i64)
    };
    let q: i64 = size / by;
    if (n >= 0) == (d > 0) {
        q
    } else {
        -q
    }
}

/// A length on the sprite as a length in a world of this scale: the length
/// by the scale, where a scale of one is a thousand steps.
pub open spec fn scaled(length: int, scale: i32) -> int {
    divided(length * UNIT, scale as int)
}

/// A length on the sprite as a length in a world of this scale.
fn scale_down(length: i64, scale: i32) -> (world: i64)
    requires
        scale != 0,
        -0x1_0000_0000 <= length <= 0x1_0000_0000,
    ensures
        world == scaled(length as int, scale),
{
    let steps: i64 = length * (UNIT as i64);
    assert(steps == length * 1000);
    divide(steps, scale)
}

/// A sensor to make: where it sits on its parent, and its half extents.
#[derive(Clone, Copy, Debug, PartialEq, Eq, Structural)]
pub struct SensorEntity {
    pub center: Offset,
    pub half_x: i64,
    pub half_y: i64,
}

/// The tie of a collider to the body that carries it.
#[derive(Clone, Copy, Debug, PartialEq, Eq, Structural)]
pub struct ColliderParent {
    pub handle: u64,
    pub pos_wrt_parent: Offset,
}

impl SensorEntity {
    /// The sensor that stands for `hitbox` in a world of `scale`: the centre
    /// and the half extents of the hitbox, each by the scale.
    pub open spec fn of(hitbox: Hitbox, scale: i32) -> SensorEntity {
        SensorEntity {
            center: Offset {
                x: scaled(hitbox.center().x as int, scale) as i64,
                y: scaled(hitbox.center().y as int, scale) as i64,
            },
            half_x: scaled(halved(hitbox.max.x - hitbox.min.x), scale) as i64,
            half_y: scaled(halved(hitbox.max.y - hitbox.min.y), scale) as i64,
        }
    }

    /// The sensor that stands for `hitbox` in a world of `scale`, where a
    /// scale of one is a thousand steps.
    pub fn for_hitbox(hitbox: &Hitbox, scale: i32) -> (sensor: SensorEntity)
        requires
            scale != 0,
        ensures
            sensor == SensorEntity::of(*hitbox, scale),
    {
        let center = hitbox.get_center();
        SensorEntity {
            center: Offset { x: scale_down(center.x, scale), y: scale_down(center.y, scale) },
            half_x: scale_down(hitbox.get_half_x(), scale),
            half_y: scale_down(hitbox.get_half_y(), scale),
        }
    }

    /// The sensor's collider: a box without mass or grip that reports intersections only.
    pub fn collider_bundle(&self) -> (collider: ColliderBundle)
        ensures
            collider == (ColliderBundle {
                sensor: true,
                half_width: self.half_x,
                half_height: self.half_y,
                mass: Some(0),
                friction: 0,
                restitution: 0,
                contact_events: false,
                intersection_events: true,
                collision_groups: None,
                solver_groups: None,
            }),
    {
        ColliderBundle {
            sensor: true,
            half_width: self.half_x,
            half_height: self.half_y,
            mass: Some(0),
            friction: 0,
            restitution: 0,
            contact_events: false,
            intersection_events: true,
            collision_groups: None,
            solver_groups: None,
        }
    }

    /// The tie of the sensor to the body `handle`, at the sensor's centre.
    pub fn collider_parent(&self, handle: u64) -> (parent: ColliderParent)
        ensures
            parent == (ColliderParent { handle, pos_wrt_parent: self.center }),
    {
        ColliderParent { handle, pos_wrt_parent: self.center }
    }
}

/// A hitbox as it stands in the world: mirrored if the sprite is.
pub open spec fn facing(hitbox: Hitbox, flip_x: bool) -> Hitbox {
    if flip_x {
        hitbox.flipped()
    } else {
        hitbox
    }
}

/// The first `n` of the `wanted` hitboxes, as they stand in the world, that
/// no sensor stands for yet, in their order.
pub open spec fn missing(wanted: Seq<Hitbox>, flip_x: bool, sensors: Seq<Hitbox>, n: nat) -> Seq<
    Hitbox,
>
    decreases n,
{
    if n == 0 || n > wanted.len() {
        Seq::empty()
    } else {
        let rest = missing(wanted, flip_x, sensors, (n - 1) as nat);
        let hitbox = facing(wanted[n - 1], flip_x);
        if sensors.contains(hitbox) {
            rest
        } else {
            rest.push(hitbox)
        }
    }
}

/// The places of those among the first `n` `sensors` whose hitbox is not
/// among the `wanted`, in their order.
pub open spec fn stale(wanted: Seq<Hitbox>, sensors: Seq<Hitbox>, n: nat) -> Seq<usize>
    decreases n,
{
    if n == 0 || n > sensors.len() {
        Seq::empty()
    } else {
        let rest = stale(wanted, sensors, (n - 1) as nat);
        if wanted.contains(sensors[n - 1]) {
            rest
        } else {
            rest.push((n - 1) as usize)
        }
    }
}

/// What brings the sensors of a sprite in step with its hitboxes.
#[derive(Debug, PartialEq, Eq)]
pub struct HitboxSync {
    /// The hitboxes to make sensors for.
    pub spawn: Vec<Hitbox>,
    /// The places of the sensors to remove.
    pub despawn: Vec<usize>,
}

/// Whether `list` holds `hitbox`.
fn holds(list: &Vec<Hitbox>, hitbox: &Hitbox) -> (found: bool)
    ensures
        found == list@.contains(*hitbox),
{
    let mut i: usize = 0;
    while i < list.len()
        invariant
            i <= list.len(),
            forall|j: int| 0 <= j < i ==> list@[j] != *hitbox,
        decreases list.len() - i,
    {
        if list[i] == *hitbox {
            return true;
        }
        i = i + 1;
    }
    false
}

/// Whether every one of `hitboxes` can be mirrored.
pub open spec fn all_can_flip(hitboxes: Seq<Hitbox>) -> bool {
    forall|i: int| 0 <= i < hitboxes.len() ==> (#[trigger] hitboxes[i]).can_flip()
}

/// Whether every one of `hitboxes` can be mirrored.
pub fn all_flippable(hitboxes: &Vec<Hitbox>) -> (flippable: bool)
    ensures
        flippable == all_can_flip(hitboxes@),
{
    let mut i: usize = 0;
    while i < hitboxes.len()
        invariant
            i <= hitboxes.len(),
            forall|j: int| 0 <= j < i ==> (#[trigger] hitboxes@[j]).can_flip(),
        decreases hitboxes.len() - i,
    {
        if !hitboxes[i].is_flippable() {
            return false;
        }
        i = i + 1;
    }
    true
}

/// Works out what brings the sensors of a sprite in step with the hitboxes
/// of the frame that it shows.
///
/// A hitbox of the frame gets a sensor if none of the `sensors` stands for
/// it as it stands in the world, mirrored if the sprite is. A sensor is
/// removed if its hitbox is not among the hitboxes of the frame as the sheet
/// holds them.
pub fn sync_hitboxes(hitboxes: &Vec<Hitbox>, flip_x: bool, sensors: &Vec<Hitbox>) -> (sync:
    HitboxSync)
    requires
        flip_x ==> all_can_flip(hitboxes@),
    ensures
        sync.spawn@ == missing(hitboxes@, flip_x, sensors@, hitboxes@.len()),
        sync.despawn@ == stale(hitboxes@, sensors@, sensors@.len()),
{
    let mut spawn: Vec<Hitbox> = Vec::new();
    let mut i: usize = 0;
    while i < hitboxes.len()
        invariant
            i <= hitboxes.len(),
            flip_x ==> all_can_flip(hitboxes@),
            spawn@ == missing(hitboxes@, flip_x, sensors@, i as nat),
        decreases hitboxes.len() - i,
    {
        let mut flipped_hitbox = hitboxes[i];
        if flip_x {
            assert(hitboxes@[i as int].can_flip());
            flipped_hitbox.flip_x();
        }
        if !holds(sensors, &flipped_hitbox) {
            spawn.push(flipped_hitbox);
        }
        i = i + 1;
    }
    let mut despawn: Vec<usize> = Vec::new();
    let mut k: usize = 0;
    while k < sensors.len()
        invariant
            k <= sensors.len(),
            despawn@ == stale(hitboxes@, sensors@, k as nat),
        decreases sensors.len() - k,
    {
        if !holds(hitboxes, &sensors[k]) {
            despawn.push(k);
        }
        k = k + 1;
    }
    HitboxSync { spawn, despawn }
}

} // verus!

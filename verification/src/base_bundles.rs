//! What the physics is asked to make for an actor: a body and a collider.
//!
//! These are descriptions in plain values. What a description leaves open
//! (`None`) is left to the physics.
use crate::geometry::{Vec2, UNIT};
use vstd::prelude::*;

verus! {

/// How a body takes part in the physics.
#[derive(Clone, Copy, Debug, PartialEq, Eq, Structural)]
pub enum BodyType {
    /// It never moves.
    Static,
    /// Forces move it.
    Dynamic,
}

/// A rigid body to make.
#[derive(Clone, Copy, Debug, PartialEq, Eq, Structural)]
pub struct RigidBodyBundle {
    pub body_type: BodyType,
    pub position: Vec2,
    pub velocity: Vec2,
    pub rotation_locked: bool,
}

/// The groups that a collider belongs to, and the groups that it meets.
#[derive(Clone, Copy, Debug, PartialEq, Eq, Structural)]
pub struct InteractionGroups {
    pub memberships: u32,
    pub filter: u32,
}

/// A box collider to make: its half extents, its mass, its material, the
/// events that it reports, and the groups that it belongs to and meets.
#[derive(Clone, Copy, Debug, PartialEq, Eq, Structural)]
pub struct ColliderBundle {
    pub sensor: bool,
    pub half_width: i64,
    pub half_height: i64,
    pub mass: Option<i64>,
    pub friction: i32,
    pub restitution: i32,
    pub contact_events: bool,
    pub intersection_events: bool,
    /// The groups for collisions.
    pub collision_groups: Option<InteractionGroups>,
    /// The groups for the forces between bodies.
    pub solver_groups: Option<InteractionGroups>,
}

/// The groups of an actor that no one has sorted yet: the lower sixteen.
pub const DEFAULT_GROUPS: u32 = 0xffff;

/// The measures of a square actor, from which its body and collider are made.
#[derive(Clone, Copy, Debug, PartialEq, Eq, Structural)]
pub struct WorldEntityBuilder {
    pub radius: i32,
    pub velocity: Vec2,
    pub position: Vec2,
    pub mass: i64,
    pub collision_group: u32,
    pub collision_filter: u32,
    pub solver_group: u32,
    pub solver_filter: u32,
}

/// The mass of an actor of this radius: four times the square of the radius.
/// With a thousand steps to the unit that is the square of the steps by 250.
pub open spec fn mass_of(radius: i32) -> i64 {
    (radius * radius / 250) as i64
}

impl WorldEntityBuilder {
    /// An actor of this radius, at rest at the origin, in all the default groups.
    pub fn of_size(radius: i32) -> (builder: WorldEntityBuilder)
        ensures
            builder == (WorldEntityBuilder {
                radius,
                mass: mass_of(radius),
                position: Vec2 { x: 0, y: 0 },
                velocity: Vec2 { x: 0, y: 0 },
                collision_group: DEFAULT_GROUPS,
                collision_filter: DEFAULT_GROUPS,
                solver_group: DEFAULT_GROUPS,
                solver_filter: DEFAULT_GROUPS,
            }),
    {
        let wide: i64 = radius as i64;
        assert(0 <= wide * wide <= 0x4000_0000_0000_0000) by (nonlinear_arith)
            requires
                -0x8000_0000 <= wide <= 0x7fff_ffff,
        ;
        WorldEntityBuilder {
            radius,
            mass: wide * wide / 250,
            position: Vec2 { x: 0, y: 0 },
            velocity: Vec2 { x: 0, y: 0 },
            collision_group: DEFAULT_GROUPS,
            collision_filter: DEFAULT_GROUPS,
            solver_group: DEFAULT_GROUPS,
            solver_filter: DEFAULT_GROUPS,
        }
    }

    /// The same actor, moving with this velocity.
    pub fn with_velocity(self, x: i32, y: i32) -> (builder: WorldEntityBuilder)
        ensures
            builder == (WorldEntityBuilder { velocity: Vec2 { x, y }, ..self }),
    {
        WorldEntityBuilder { velocity: Vec2 { x, y }, ..self }
    }

    /// The same actor, at this place.
    pub fn at_position(self, x: i32, y: i32) -> (builder: WorldEntityBuilder)
        ensures
            builder == (WorldEntityBuilder { position: Vec2 { x, y }, ..self }),
    {
        WorldEntityBuilder { position: Vec2 { x, y }, ..self }
    }

    /// The same actor, in these groups for collisions.
    pub fn with_collision_group(self, collision_group: u32) -> (builder: WorldEntityBuilder)
        ensures
            builder == (WorldEntityBuilder { collision_group, ..self }),
    {
        WorldEntityBuilder { collision_group, ..self }
    }

    /// The same actor, colliding with these groups.
    pub fn with_collision_filter(self, collision_filter: u32) -> (builder: WorldEntityBuilder)
        ensures
            builder == (WorldEntityBuilder { collision_filter, ..self }),
    {
        WorldEntityBuilder { collision_filter, ..self }
    }

    /// The same actor, in these groups for the forces between bodies.
    pub fn with_solver_group(self, solver_group: u32) -> (builder: WorldEntityBuilder)
        ensures
            builder == (WorldEntityBuilder { solver_group, ..self }),
    {
        WorldEntityBuilder { solver_group, ..self }
    }

    /// The same actor, pushed by these groups.
    pub fn with_solver_filter(self, solver_filter: u32) -> (builder: WorldEntityBuilder)
        ensures
            builder == (WorldEntityBuilder { solver_filter, ..self }),
    {
        WorldEntityBuilder { solver_filter, ..self }
    }

    /// The actor's collider: a square of its radius and mass, rough and not
    /// bouncy, reporting contacts and intersections, in the actor's groups.
    pub fn collider_bundle(&self) -> (collider: ColliderBundle)
        ensures
            collider == (ColliderBundle {
                sensor: false,
                half_width: self.radius as i64,
                half_height: self.radius as i64,
                mass: Some(self.mass),
                friction: UNIT,
                restitution: 0,
                contact_events: true,
                intersection_events: true,
                collision_groups: Some(
                    InteractionGroups {
                        memberships: self.collision_group,
                        filter: self.collision_filter,
                    },
                ),
                solver_groups: Some(
                    InteractionGroups { memberships: self.solver_group, filter: self.solver_filter },
                ),
            }),
    {
        ColliderBundle {
            sensor: false,
            half_width: self.radius as i64,
            half_height: self.radius as i64,
            mass: Some(self.mass),
            friction: UNIT,
            restitution: 0,
            contact_events: true,
            intersection_events: true,
            collision_groups: Some(
                InteractionGroups {
                    memberships: self.collision_group,
                    filter: self.collision_filter,
                },
            ),
            solver_groups: Some(
                InteractionGroups { memberships: self.solver_group, filter: self.solver_filter },
            ),
        }
    }

    /// The actor's body: at its place, with its velocity, and unable to turn.
    pub fn rigid_body_bundle(&self) -> (body: RigidBodyBundle)
        ensures
            body == (RigidBodyBundle {
                body_type: BodyType::Dynamic,
                position: self.position,
                velocity: self.velocity,
                rotation_locked: true,
            }),
    {
        RigidBodyBundle {
            body_type: BodyType::Dynamic,
            position: self.position,
            velocity: self.velocity,
            rotation_locked: true,
        }
    }
}

} // verus!

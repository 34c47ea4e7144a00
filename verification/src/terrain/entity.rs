//! What the scene is built of: the bedrock that actors stand on and the
//! backdrop behind it.
use crate::base_bundles::{BodyType, ColliderBundle, RigidBodyBundle};
use crate::geometry::{half, halved, Vec2, UNIT};
use vstd::prelude::*;
use vstd::string::StringExecFns;

verus! {

/// Marks terrain that actors can stand on.
#[derive(Clone, Copy, Debug, Default, PartialEq, Eq, Structural)]
pub struct TerrainBlock;

/// Marks the backdrop.
#[derive(Clone, Copy, Debug, Default, PartialEq, Eq, Structural)]
pub struct Parallax;

/// The collider of a block of terrain of this width and height: rough, not
/// bouncy, and reporting contacts and intersections.
pub open spec fn terrain_collider(width: i32, height: i32) -> ColliderBundle {
    ColliderBundle {
        sensor: false,
        half_width: halved(width as int) as i64,
        half_height: halved(height as int) as i64,
        mass: None,
        friction: UNIT,
        restitution: 0,
        contact_events: true,
        intersection_events: true,
        collision_groups: None,
        solver_groups: None,
    }
}

/// The collider of a block of terrain of this width and height.
pub fn terrain_collider_bundle(width: i32, height: i32) -> (collider: ColliderBundle)
    ensures
        collider == terrain_collider(width, height),
{
    ColliderBundle {
        sensor: false,
        half_width: half(width as i64),
        half_height: half(height as i64),
        mass: None,
        friction: UNIT,
        restitution: 0,
        contact_events: true,
        intersection_events: true,
        collision_groups: None,
        solver_groups: None,
    }
}

/// The body of a block of terrain: it rests at `position` for good.
pub fn terrain_rigid_body_bundle(position: Vec2) -> (body: RigidBodyBundle)
    ensures
        body == (RigidBodyBundle {
            body_type: BodyType::Static,
            position,
            velocity: Vec2 { x: 0, y: 0 },
            rotation_locked: false,
        }),
{
    RigidBodyBundle {
        body_type: BodyType::Static,
        position,
        velocity: Vec2 { x: 0, y: 0 },
        rotation_locked: false,
    }
}

/// The bedrock to put into the scene.
#[derive(Debug, PartialEq, Eq)]
pub struct Bedrock {
    pub collider: ColliderBundle,
    pub body: RigidBodyBundle,
    pub texture: String,
    /// How far in front of the backdrop the picture is drawn.
    pub layer: i32,
    pub marker: TerrainBlock,
}

/// The backdrop to put into the scene.
#[derive(Debug, PartialEq, Eq)]
pub struct Backdrop {
    pub texture: String,
    pub position: Vec2,
    /// By how much the picture is stretched sideways.
    pub scale_x: i32,
    /// How far in front of the far plane the picture is drawn.
    pub layer: i32,
    pub marker: Parallax,
}

/// The width of the bedrock: 2048 pixels at 32 pixels to the unit, which makes 64 units.
pub const BEDROCK_WIDTH: i32 = 64 * UNIT;

/// The height of the bedrock.
pub const BEDROCK_HEIGHT: i32 = 2 * UNIT;

/// The height at which the bedrock lies.
pub const BEDROCK_DEPTH: i32 = -2 * UNIT;

/// The height at which the backdrop hangs.
pub const BACKDROP_HEIGHT: i32 = 256 * UNIT;

/// The stretch of the backdrop.
pub const BACKDROP_SCALE: i32 = 2 * UNIT;

/// The layer of the bedrock's picture: a fifth of a unit.
pub const BEDROCK_LAYER: i32 = 200;

/// The layer of the backdrop: a tenth of a unit.
pub const BACKDROP_LAYER: i32 = 100;

/// The bedrock of the scene: a slab two units under the origin, drawn from
/// the foreground picture.
pub fn spawn_bedrock() -> (bedrock: Bedrock)
    ensures
        bedrock.collider == terrain_collider(BEDROCK_WIDTH, BEDROCK_HEIGHT),
        bedrock.body == (RigidBodyBundle {
            body_type: BodyType::Static,
            position: Vec2 { x: 0, y: BEDROCK_DEPTH },
            velocity: Vec2 { x: 0, y: 0 },
            rotation_locked: false,
        }),
        bedrock.texture@ == "sprites/Foreground.png"@,
        bedrock.layer == BEDROCK_LAYER,
{
    Bedrock {
        collider: terrain_collider_bundle(BEDROCK_WIDTH, BEDROCK_HEIGHT),
        body: terrain_rigid_body_bundle(Vec2 { x: 0, y: BEDROCK_DEPTH }),
        texture: String::from_str("sprites/Foreground.png"),
        layer: BEDROCK_LAYER,
        marker: TerrainBlock,
    }
}

/// The backdrop of the scene: the background picture, twice as wide as
/// drawn, high above the origin and behind everything else.
pub fn spawn_parallax() -> (backdrop: Backdrop)
    ensures
        backdrop.texture@ == "sprites/Background.png"@,
        backdrop.position == (Vec2 { x: 0, y: BACKDROP_HEIGHT }),
        backdrop.scale_x == BACKDROP_SCALE,
        backdrop.layer == BACKDROP_LAYER,
{
    Backdrop {
        texture: String::from_str("sprites/Background.png"),
        position: Vec2 { x: 0, y: BACKDROP_HEIGHT },
        scale_x: BACKDROP_SCALE,
        layer: BACKDROP_LAYER,
        marker: Parallax,
    }
}

} // verus!

use powered_tree::combat::entity::{ContactType, Health};
use powered_tree::combat::{
    attack_hit_stun, can_meet, get_attack_minion, get_attacker, Link, get_position_hittables, launch_velocity, player_hit,
    player_hit_stun, PlayerHit, Side, HIT_LAUNCH_SPEED,
};
use powered_tree::geometry::{Offset, Vec2, SECOND, UNIT};
use powered_tree::minions::Minion;
use powered_tree::player::attack_behavior_tree::AttackImpulses;
use powered_tree::player::PlayerState;
use powered_tree::base_bundles::{BodyType, ColliderBundle, RigidBodyBundle};
use powered_tree::terrain::entity::{
    spawn_bedrock, spawn_parallax, terrain_collider_bundle, terrain_rigid_body_bundle, Parallax,
    TerrainBlock,
};
use powered_tree::terrain::grounded::{
    grounded_system, GroundProbe, GroundedState, AIR_TIME, GROUNDED_TIME, PROBE_MARGIN,
};

#[test]
fn units_are_a_thousand_steps_and_a_million_microseconds() {
    assert_eq!(UNIT, 1000);
    assert_eq!(SECOND, 1000000);
    assert_eq!(HIT_LAUNCH_SPEED, 20000);
    assert_eq!(GROUNDED_TIME, 100000);
    assert_eq!(AIR_TIME, 200000);
    assert_eq!(PROBE_MARGIN, 100);
}

#[test]
fn health_starts_full_and_goes_down_by_the_damage() {
    let mut health = Health::new(3);
    assert_eq!(
        health,
        Health { max_health: 3, current_health: 3, hit_stun: 0, invulnerability: 0 }
    );
    assert!(health.takes(5));
    health.damage(5);
    assert_eq!(health.current_health, -2);
    assert_eq!(health.max_health, 3);
    assert!(!health.takes(i32::MAX));
    assert!(health.takes(i32::MAX - 1));
    health.damage(-4);
    assert_eq!(health.current_health, 2);
    assert!(!health.takes(i32::MIN));
}

#[test]
fn contact_is_inactive_by_default() {
    assert_eq!(ContactType::default(), ContactType::Inactive);
    assert_eq!(
        Health::default(),
        Health { max_health: 0, current_health: 0, hit_stun: 0, invulnerability: 0 }
    );
}

#[test]
fn the_player_is_hit_by_minions_and_their_shots() {
    let player = ContactType::Player;
    let here = Vec2::new(1000, 2000);
    let there = Vec2::new(4000, -500);
    let towards_here = Offset { x: -3000, y: 2500 };
    let towards_there = Offset { x: 3000, y: -2500 };
    let hit = |a: ContactType, b: ContactType| player_hit(&here, &there, &a, &b);
    assert_eq!(
        hit(player, ContactType::Minion(2)),
        Some(PlayerHit { side: Side::First, launch_dir: towards_here, damage: 2 })
    );
    assert_eq!(
        hit(player, ContactType::MinionProjectile(3)),
        Some(PlayerHit { side: Side::First, launch_dir: towards_here, damage: 3 })
    );
    assert_eq!(
        hit(ContactType::Minion(4), player),
        Some(PlayerHit { side: Side::Second, launch_dir: towards_there, damage: 4 })
    );
    assert_eq!(
        hit(ContactType::MinionProjectile(5), player),
        Some(PlayerHit { side: Side::Second, launch_dir: towards_there, damage: 5 })
    );
    assert_eq!(hit(player, player), None);
    assert_eq!(hit(player, ContactType::Inactive), None);
    assert_eq!(hit(ContactType::Inactive, player), None);
    assert_eq!(hit(ContactType::Minion(1), ContactType::Minion(1)), None);
    assert_eq!(hit(ContactType::Minion(1), ContactType::MinionProjectile(1)), None);
}

#[test]
fn position_hittables_need_all_four() {
    let a = Vec2::new(1, 2);
    let b = Vec2::new(3, 4);
    let player = ContactType::Player;
    let minion = ContactType::Minion(1);
    assert_eq!(
        get_position_hittables(Some(a), Some(b), Some(player), Some(minion)),
        Some((a, b, player, minion))
    );
    assert_eq!(get_position_hittables(None, Some(b), Some(player), Some(minion)), None);
    assert_eq!(get_position_hittables(Some(a), None, Some(player), Some(minion)), None);
    assert_eq!(get_position_hittables(Some(a), Some(b), None, Some(minion)), None);
    assert_eq!(get_position_hittables(Some(a), Some(b), Some(player), None), None);
}

#[test]
fn a_hit_throws_the_player_to_its_side() {
    assert_eq!(launch_velocity(&Offset { x: 1, y: -50 }), Vec2::new(20000, 20000));
    assert_eq!(launch_velocity(&Offset { x: 0, y: 0 }), Vec2::new(-20000, 20000));
    assert_eq!(launch_velocity(&Offset { x: -9, y: 3 }), Vec2::new(-20000, 20000));
}

#[test]
fn a_hit_stuns_the_player() {
    let mut health = Health::new(20);
    let mut velocity = Vec2::new(1, 1);
    let mut grounded = GroundedState::new(1000, 1000, 100);
    grounded.touch_ground();
    let mut state = PlayerState::Controlled;
    player_hit_stun(
        &Offset { x: 5, y: 0 },
        3,
        &mut health,
        &mut velocity,
        &mut grounded,
        &mut state,
    );
    assert_eq!(health.current_health, 17);
    assert_eq!(health.max_health, 20);
    assert_eq!(velocity, Vec2::new(20000, 20000));
    assert!(!grounded.on_the_ground());
    assert_eq!(grounded.air_for, AIR_TIME);
    assert_eq!(state, PlayerState::HitStun);
}

#[test]
fn the_attacker_is_the_nearest_in_the_chain() {
    let link = |entity, attacking| Link { entity, attacking };
    assert_eq!(get_attacker(&vec![]), None);
    assert_eq!(get_attacker(&vec![link(1, false), link(2, false)]), None);
    assert_eq!(get_attacker(&vec![link(1, true), link(2, true)]), Some(1));
    assert_eq!(get_attacker(&vec![link(1, false), link(2, true), link(3, true)]), Some(2));
}

#[test]
fn attacker_and_minion_are_told_apart() {
    assert_eq!(get_attack_minion(Some(1), None, None, Some(2)), Some((1, 2)));
    assert_eq!(get_attack_minion(Some(1), Some(3), Some(4), Some(2)), Some((1, 2)));
    assert_eq!(get_attack_minion(Some(1), Some(3), Some(4), None), None);
    assert_eq!(get_attack_minion(None, Some(3), Some(4), Some(2)), Some((3, 4)));
    assert_eq!(get_attack_minion(None, Some(3), None, Some(2)), None);
    assert_eq!(get_attack_minion(None, None, Some(4), Some(2)), None);
}

#[test]
fn an_attack_hurts_a_minion_once() {
    let mut impulses = AttackImpulses::new(7);
    impulses.attack_damage = 2;
    let mut minion = Minion::new(10000, 1);
    let mut health = Health::new(3);
    let mut velocity = Vec2::new(5, 5);
    let mut grounded = GroundedState::new(500, 500, 100);
    grounded.touch_ground();
    assert!(can_meet(&impulses, &minion, &health));
    assert!(!can_meet(&impulses, &minion, &Health { current_health: i32::MIN + 1, ..health }));
    assert!(attack_hit_stun(
        &mut impulses,
        99,
        &mut minion,
        &mut health,
        &mut velocity,
        &mut grounded
    ));
    assert!(can_meet(&impulses, &minion, &Health { current_health: i32::MIN + 1, ..health }));
    assert_eq!(impulses.hit_minions, vec![99]);
    assert_eq!(minion.hit_by, vec![7]);
    assert_eq!(health.current_health, 1);
    assert_eq!(velocity, Vec2::new(0, 20000));
    assert!(!grounded.on_the_ground());
    velocity = Vec2::new(1, 2);
    grounded.touch_ground();
    assert!(!attack_hit_stun(
        &mut impulses,
        99,
        &mut minion,
        &mut health,
        &mut velocity,
        &mut grounded
    ));
    assert_eq!(impulses.hit_minions, vec![99]);
    assert_eq!(minion.hit_by, vec![7]);
    assert_eq!(health.current_health, 1);
    assert_eq!(velocity, Vec2::new(1, 2));
    assert!(grounded.on_the_ground());
}

#[test]
fn footing_is_probed_after_the_air_time() {
    let mut grounded = GroundedState::new(1000, 900, 100);
    assert!(!grounded.on_the_ground());
    let probe = GroundProbe { half_width: 900, half_height: 900, depth: 100 };
    assert_eq!(grounded_system(&mut grounded, 16000), Some(probe));
    assert_eq!(grounded.grounded_for, -16000);
    assert!(!grounded.on_the_ground());
    grounded.touch_ground();
    assert!(grounded.on_the_ground());
    assert_eq!(grounded.grounded_for, 100000);
    assert_eq!(grounded_system(&mut grounded, 60000), Some(probe));
    assert_eq!(grounded.grounded_for, 40000);
    assert!(grounded.on_the_ground());
    assert_eq!(grounded_system(&mut grounded, 60000), Some(probe));
    assert_eq!(grounded.grounded_for, -20000);
    assert!(!grounded.on_the_ground());
    assert_eq!(grounded_system(&mut grounded, 60000), Some(probe));
    assert_eq!(grounded.grounded_for, -80000);
    assert_eq!(grounded.air_for, 0);
    grounded.touch_ground();
    grounded.lift_off();
    assert!(!grounded.on_the_ground());
    assert_eq!(grounded.grounded_for, 0);
    assert_eq!(grounded.air_for, 200000);
    assert_eq!(grounded_system(&mut grounded, 150000), None);
    assert_eq!(grounded.air_for, 50000);
    assert_eq!(grounded.grounded_for, 0);
    assert_eq!(grounded_system(&mut grounded, 150000), None);
    assert_eq!(grounded.air_for, -100000);
    assert_eq!(grounded.grounded_for, 0);
    assert_eq!(grounded_system(&mut grounded, 150000), Some(probe));
    assert_eq!(grounded.air_for, -100000);
    assert_eq!(grounded.grounded_for, -150000);
    let mut narrow = GroundedState::new(i32::MIN, 0, 0);
    assert_eq!(
        grounded_system(&mut narrow, 1),
        Some(GroundProbe { half_width: -2147483748, half_height: 0, depth: 0 })
    );
}

#[test]
fn a_lift_off_and_a_long_frame_leave_the_air_timer_below_zero() {
    let mut grounded = GroundedState::new(1000, 1000, 100);
    grounded.lift_off();
    assert_eq!(grounded_system(&mut grounded, 300000), None);
    assert_eq!(grounded.air_for, -100000);
    assert_eq!(GroundedState::default(), GroundedState::new(0, 0, 0));
}

#[test]
fn footing_timers_stop_at_the_least_value_of_their_type() {
    let mut grounded = GroundedState::new(1, 1, 1);
    grounded.grounded_for = i64::MIN + 5;
    grounded_system(&mut grounded, 5);
    assert_eq!(grounded.grounded_for, i64::MIN);
    grounded_system(&mut grounded, 7);
    assert_eq!(grounded.grounded_for, i64::MIN);
    grounded.air_for = 1;
    grounded_system(&mut grounded, u32::MAX);
    assert_eq!(grounded.air_for, -4294967294);
}

#[test]
fn terrain_is_static_and_rough() {
    assert_eq!(
        terrain_rigid_body_bundle(Vec2::new(3, -4)),
        RigidBodyBundle {
            body_type: BodyType::Static,
            position: Vec2::new(3, -4),
            velocity: Vec2::new(0, 0),
            rotation_locked: false
        }
    );
    assert_eq!(
        terrain_collider_bundle(7, 4000),
        ColliderBundle {
            sensor: false,
            half_width: 3,
            half_height: 2000,
            mass: None,
            friction: 1000,
            restitution: 0,
            contact_events: true,
            intersection_events: true,
            collision_groups: None,
            solver_groups: None
        }
    );
}

#[test]
fn the_scene_has_bedrock_and_a_backdrop() {
    let bedrock = spawn_bedrock();
    assert_eq!(bedrock.collider, terrain_collider_bundle(64000, 2000));
    assert_eq!(bedrock.collider.half_width, 32000);
    assert_eq!(bedrock.collider.half_height, 1000);
    assert_eq!(bedrock.body, terrain_rigid_body_bundle(Vec2::new(0, -2000)));
    assert_eq!(bedrock.texture, "sprites/Foreground.png");
    assert_eq!(bedrock.layer, 200);
    assert_eq!(bedrock.marker, TerrainBlock);
    let backdrop = spawn_parallax();
    assert_eq!(backdrop.texture, "sprites/Background.png");
    assert_eq!(backdrop.position, Vec2::new(0, 256000));
    assert_eq!(backdrop.scale_x, 2000);
    assert_eq!(backdrop.layer, 100);
    assert_eq!(backdrop.marker, Parallax);
}

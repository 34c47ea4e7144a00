use powered_tree::animation::component_types::AnimationState;
use powered_tree::base_bundles::{
    BodyType, ColliderBundle, InteractionGroups, RigidBodyBundle, WorldEntityBuilder,
};
use powered_tree::combat::entity::{ContactType, Health};
use powered_tree::geometry::Vec2;
use powered_tree::minions::ai::minion_brain;
use powered_tree::minions::behavior_tree::MinionThoughts;
use powered_tree::minions::{spawn_minion, Minion};
use powered_tree::player::attack_behavior_tree::{
    attack_impulse_system, AttackImpulses, PlayerAttackType,
};
use powered_tree::player::inputs::{
    is_movable, player_key_input_system, player_movement_system, PlayerInputState, Tilt,
};
use powered_tree::player::{spawn_player, PlayerState, PlayerStats, Ratio};
use powered_tree::terrain::grounded::GroundedState;

#[test]
fn builder_of_size_weighs_four_times_the_square() {
    let builder = WorldEntityBuilder::of_size(1000);
    assert_eq!(
        builder,
        WorldEntityBuilder {
            radius: 1000,
            velocity: Vec2::new(0, 0),
            position: Vec2::new(0, 0),
            mass: 4000,
            collision_group: 0xffff,
            collision_filter: 0xffff,
            solver_group: 0xffff,
            solver_filter: 0xffff
        }
    );
    assert_eq!(WorldEntityBuilder::of_size(500).mass, 1000);
    assert_eq!(WorldEntityBuilder::of_size(-500).mass, 1000);
    assert_eq!(WorldEntityBuilder::of_size(15).mass, 0);
    assert_eq!(WorldEntityBuilder::of_size(i32::MIN).mass, 18446744073709551);
}

#[test]
fn builder_sets_one_thing_at_a_time() {
    let base = WorldEntityBuilder::of_size(1000);
    assert_eq!(base.with_velocity(1, 2), WorldEntityBuilder { velocity: Vec2::new(1, 2), ..base });
    assert_eq!(base.at_position(3, 4), WorldEntityBuilder { position: Vec2::new(3, 4), ..base });
    assert_eq!(base.with_collision_group(5), WorldEntityBuilder { collision_group: 5, ..base });
    assert_eq!(base.with_collision_filter(6), WorldEntityBuilder { collision_filter: 6, ..base });
    assert_eq!(base.with_solver_group(7), WorldEntityBuilder { solver_group: 7, ..base });
    assert_eq!(base.with_solver_filter(8), WorldEntityBuilder { solver_filter: 8, ..base });
}

#[test]
fn builder_makes_body_and_collider() {
    let builder = WorldEntityBuilder::of_size(500)
        .at_position(5000, 10000)
        .with_velocity(-1, 1)
        .with_collision_group(1)
        .with_collision_filter(2)
        .with_solver_group(3)
        .with_solver_filter(4);
    assert_eq!(
        builder.collider_bundle(),
        ColliderBundle {
            sensor: false,
            half_width: 500,
            half_height: 500,
            mass: Some(1000),
            friction: 1000,
            restitution: 0,
            contact_events: true,
            intersection_events: true,
            collision_groups: Some(InteractionGroups { memberships: 1, filter: 2 }),
            solver_groups: Some(InteractionGroups { memberships: 3, filter: 4 })
        }
    );
    assert_eq!(
        builder.rigid_body_bundle(),
        RigidBodyBundle {
            body_type: BodyType::Dynamic,
            position: Vec2::new(5000, 10000),
            velocity: Vec2::new(-1, 1),
            rotation_locked: true
        }
    );
}

#[test]
fn the_player_enters_the_world_under_control() {
    let player = spawn_player();
    assert_eq!(player.sprite_animation, "sprites/Player.sprite");
    assert_eq!(player.layer, 1000);
    assert_eq!(player.scale, Ratio { numerator: 10, denominator: 32 });
    assert_eq!(player.world_entity, WorldEntityBuilder::of_size(1000).at_position(0, 10000));
    assert_eq!(player.contact_type, ContactType::Player);
    assert_eq!(player.health, Health::new(20));
    assert_eq!(player.input, PlayerInputState::default());
    assert_eq!(player.state, PlayerState::Controlled);
    assert_eq!(
        player.stats,
        PlayerStats { walk_speed: 10000, air_speed: 4000, jump_speed: 50000, jump_delay: 150000 }
    );
    assert_eq!(player.grounded, GroundedState::new(1000, 1000, 100));
    assert_eq!(player.name, "player");
    assert_eq!(
        PlayerStats::default(),
        PlayerStats { walk_speed: 0, air_speed: 0, jump_speed: 0, jump_delay: 0 }
    );
}

#[test]
fn a_minion_enters_the_world_with_a_new_brain() {
    let minion = spawn_minion();
    assert_eq!(minion.sprite_animation, "sprites/Minion.sprite");
    assert_eq!(minion.layer, 1000);
    assert_eq!(
        minion.world_entity,
        WorldEntityBuilder::of_size(500)
            .at_position(5000, 10000)
            .with_solver_group(2)
            .with_solver_filter(2)
    );
    assert_eq!(minion.contact_type, ContactType::Minion(1));
    assert_eq!(minion.health, Health::new(3));
    assert_eq!(minion.minion, Minion::new(10000, 1));
    assert_eq!(minion.thoughts, MinionThoughts::default());
    assert_eq!(minion.brain.0, minion_brain());
    assert_eq!(minion.grounded, GroundedState::new(500, 500, 100));
}

#[test]
fn keys_become_wishes() {
    let mut input = PlayerInputState::default();
    assert_eq!(input.tilt_x, Tilt::Level);
    player_key_input_system(&mut input, true, true, true, false);
    assert_eq!(
        input,
        PlayerInputState { tilt_x: Tilt::Left, wants_attack: false, wants_jump: true }
    );
    player_key_input_system(&mut input, false, true, false, true);
    assert_eq!(
        input,
        PlayerInputState { tilt_x: Tilt::Right, wants_attack: true, wants_jump: false }
    );
    player_key_input_system(&mut input, false, false, false, false);
    assert_eq!(input, PlayerInputState::default());
    assert_eq!(Tilt::Left.times(7), -7);
    assert_eq!(Tilt::Level.times(7), 0);
    assert_eq!(Tilt::Right.times(7), 7);
}

struct Scene {
    grounded: GroundedState,
    flip_x: bool,
    animation: AnimationState,
    velocity: Vec2,
}

fn scene(on_the_ground: bool) -> Scene {
    let mut grounded = GroundedState::new(1000, 1000, 100);
    if on_the_ground {
        grounded.touch_ground();
    }
    Scene {
        grounded,
        flip_x: false,
        animation: AnimationState::default(),
        velocity: Vec2::new(3, 4),
    }
}

fn act(scene: &mut Scene, state: PlayerState, input: PlayerInputState) -> Option<PlayerAttackType> {
    let stats = spawn_player().stats;
    player_movement_system(
        &stats,
        &state,
        &input,
        &mut scene.grounded,
        &mut scene.flip_x,
        &mut scene.animation,
        &mut scene.velocity,
    )
}

fn wish(tilt_x: Tilt, wants_jump: bool, wants_attack: bool) -> PlayerInputState {
    PlayerInputState { tilt_x, wants_attack, wants_jump }
}

#[test]
fn a_speed_has_to_fit_only_where_it_is_turned_round() {
    let stats =
        PlayerStats { walk_speed: i32::MIN, air_speed: i32::MIN, jump_speed: 0, jump_delay: 0 };
    let on_the_ground = scene(true).grounded;
    let in_the_air = scene(false).grounded;
    let left = wish(Tilt::Left, false, false);
    assert!(!is_movable(&stats, &PlayerState::Controlled, &left, &on_the_ground));
    assert!(!is_movable(&stats, &PlayerState::Controlled, &left, &in_the_air));
    assert!(is_movable(&stats, &PlayerState::HitStun, &left, &on_the_ground));
    assert!(is_movable(&stats, &PlayerState::Attacking, &left, &in_the_air));
    let right = wish(Tilt::Right, false, false);
    assert!(is_movable(&stats, &PlayerState::Controlled, &right, &on_the_ground));
    let walker = PlayerStats { walk_speed: 5, ..stats };
    assert!(is_movable(&walker, &PlayerState::Controlled, &left, &on_the_ground));
    assert!(!is_movable(&walker, &PlayerState::Controlled, &left, &in_the_air));
    let mut s = scene(true);
    let begun = player_movement_system(
        &stats,
        &PlayerState::Controlled,
        &right,
        &mut s.grounded,
        &mut s.flip_x,
        &mut s.animation,
        &mut s.velocity,
    );
    assert_eq!(begun, None);
    assert_eq!(s.velocity, Vec2::new(i32::MIN, 4));
    assert_eq!(Tilt::Right.times(i32::MIN), i32::MIN);
    assert_eq!(Tilt::Level.times(i32::MIN), 0);
}

#[test]
fn only_a_player_under_control_moves() {
    for state in [PlayerState::Attacking, PlayerState::HitStun] {
        let mut s = scene(true);
        assert_eq!(act(&mut s, state, wish(Tilt::Left, true, true)), None);
        assert_eq!(s.velocity, Vec2::new(3, 4));
        assert!(!s.flip_x);
        assert_eq!(s.animation, AnimationState::default());
        assert!(s.grounded.on_the_ground());
    }
}

#[test]
fn on_the_ground_the_player_walks_stands_jumps_and_attacks() {
    let mut s = scene(true);
    s.animation.elapsed = 5;
    assert_eq!(act(&mut s, PlayerState::Controlled, wish(Tilt::Level, false, false)), None);
    assert_eq!(s.velocity, Vec2::new(0, 4));
    assert_eq!(s.animation.elapsed, 5);
    assert_eq!(s.animation.animation, "Idle");
    assert_eq!(act(&mut s, PlayerState::Controlled, wish(Tilt::Left, false, false)), None);
    assert_eq!(s.velocity, Vec2::new(-10000, 4));
    assert!(s.flip_x);
    assert_eq!(s.animation, AnimationState::looping(String::from("Walk")));
    assert_eq!(
        act(&mut s, PlayerState::Controlled, wish(Tilt::Right, false, true)),
        Some(PlayerAttackType::RunningSlash(10000))
    );
    assert_eq!(s.velocity, Vec2::new(10000, 4));
    assert!(!s.flip_x);
    assert_eq!(
        act(&mut s, PlayerState::Controlled, wish(Tilt::Level, false, true)),
        Some(PlayerAttackType::Slash)
    );
    assert_eq!(s.animation, AnimationState::looping(String::from("Idle")));
    assert!(s.grounded.on_the_ground());
    assert_eq!(act(&mut s, PlayerState::Controlled, wish(Tilt::Left, true, true)), None);
    assert_eq!(s.velocity, Vec2::new(-10000, 50000));
    assert!(!s.grounded.on_the_ground());
    assert_eq!(s.grounded.air_for, 200000);
}

#[test]
fn in_the_air_the_player_only_steers() {
    let mut s = scene(false);
    assert_eq!(act(&mut s, PlayerState::Controlled, wish(Tilt::Level, true, true)), None);
    assert_eq!(s.velocity, Vec2::new(3, 4));
    assert_eq!(act(&mut s, PlayerState::Controlled, wish(Tilt::Right, true, true)), None);
    assert_eq!(s.velocity, Vec2::new(4000, 4));
    assert!(!s.flip_x);
    s.velocity.x = 9000;
    s.flip_x = true;
    assert_eq!(act(&mut s, PlayerState::Controlled, wish(Tilt::Right, false, false)), None);
    assert_eq!(s.velocity, Vec2::new(9000, 4));
    assert!(s.flip_x);
    s.flip_x = false;
    assert_eq!(act(&mut s, PlayerState::Controlled, wish(Tilt::Left, false, false)), None);
    assert_eq!(s.velocity, Vec2::new(-4000, 4));
    assert!(s.flip_x);
    s.velocity.x = -9000;
    s.flip_x = false;
    assert_eq!(act(&mut s, PlayerState::Controlled, wish(Tilt::Left, false, false)), None);
    assert_eq!(s.velocity, Vec2::new(-9000, 4));
    assert!(!s.flip_x);
    assert_eq!(s.animation, AnimationState::default());
    assert!(!s.grounded.on_the_ground());
}

#[test]
fn impulses_are_carried_out() {
    let mut impulses = AttackImpulses::new(1);
    let mut index = 3;
    let mut animation = AnimationState::default();
    animation.elapsed = 8;
    let mut velocity = Vec2::new(1, 2);
    let mut contact = ContactType::Player;
    attack_impulse_system(&impulses, &mut index, &mut animation, &mut velocity, &mut contact);
    assert_eq!(index, 3);
    assert_eq!(animation.elapsed, 8);
    assert_eq!(velocity, Vec2::new(1, 2));
    assert_eq!(contact, ContactType::Player);
    impulses.intangible = true;
    impulses.animation_frame = Some(6);
    impulses.set_speed = Some(Vec2::new(0, 0));
    impulses.play_animation = Some(String::from("Slash"));
    attack_impulse_system(&impulses, &mut index, &mut animation, &mut velocity, &mut contact);
    assert_eq!(index, 6);
    assert_eq!(animation, AnimationState::once(String::from("Slash")));
    assert_eq!(velocity, Vec2::new(0, 0));
    assert_eq!(contact, ContactType::Inactive);
    animation.elapsed = 9;
    attack_impulse_system(&impulses, &mut index, &mut animation, &mut velocity, &mut contact);
    assert_eq!(animation.elapsed, 9);
}

use powered_tree::ai::powered::{
    Interruptible, PoweredFunction, PoweredFunctionState, PoweredTree, PoweredTreeDef,
    UserNodeDefinition,
};
use powered_tree::geometry::{get_vec_to_target, Offset, Vec2};
use powered_tree::minions::ai::{
    minion_brain, minion_brain_def, minion_brain_system, minion_impulse_system,
    minion_thought_update_system, MinionImpulse, MinionSenses, GAS_PER_TICK, IDLE_TIME,
};
use powered_tree::minions::behavior_tree::{MinionThoughts, MinionTreeNode, MinionTreeNodeDef};
use powered_tree::minions::{Minion, MinionBrain};

fn lunge_name() -> String {
    String::from("Lunge")
}

#[test]
fn offsets_fit_the_widest_points() {
    let low = Vec2::new(i32::MIN, i32::MAX);
    let high = Vec2::new(i32::MAX, i32::MIN);
    let offset = get_vec_to_target(&low, &high);
    assert_eq!(offset, Offset { x: 4294967295, y: -4294967295 });
    assert!(offset.is_within(4294967295, 4294967295));
    assert!(!offset.is_within(4294967294, 4294967295));
    assert!(!offset.is_within(4294967295, 4294967294));
    assert!(!Offset { x: 0, y: 0 }.is_within(-1, 5));
    assert!(Offset { x: 0, y: 0 }.is_within(0, 0));
}

#[test]
fn player_direction_leads_from_the_minion_to_the_player() {
    let mut thoughts = MinionThoughts::default();
    assert_eq!(thoughts.get_player_direction(), None);
    thoughts.self_at = Vec2::new(10, -4);
    thoughts.player_at = Some(Vec2::new(7, 6));
    assert_eq!(thoughts.get_player_direction(), Some(Offset { x: -3, y: 10 }));
}

#[test]
fn condition_leaves_read_the_blackboard() {
    let mut thoughts = MinionThoughts::default();
    let before = thoughts.clone();
    let mut node = MinionTreeNode::OnTheGround;
    assert_eq!(node.resume_with(5, &mut thoughts), PoweredFunctionState::Failed(5));
    let mut node = MinionTreeNode::IsTimid;
    assert_eq!(node.resume_with(5, &mut thoughts), PoweredFunctionState::Failed(5));
    let mut node = MinionTreeNode::PlayerVisible;
    assert_eq!(node.resume_with(5, &mut thoughts), PoweredFunctionState::Failed(5));
    let mut node = MinionTreeNode::WaitForGround;
    assert_eq!(node.resume_with(5, &mut thoughts), PoweredFunctionState::Waiting(5));
    assert_eq!(thoughts, before);
    thoughts.on_the_ground = true;
    thoughts.timid = true;
    thoughts.player_at = Some(Vec2::new(1, 1));
    let before = thoughts.clone();
    let mut node = MinionTreeNode::OnTheGround;
    assert_eq!(node.resume_with(5, &mut thoughts), PoweredFunctionState::Complete(5));
    let mut node = MinionTreeNode::IsTimid;
    assert_eq!(node.resume_with(5, &mut thoughts), PoweredFunctionState::Complete(5));
    let mut node = MinionTreeNode::PlayerVisible;
    assert_eq!(node.resume_with(5, &mut thoughts), PoweredFunctionState::Complete(5));
    let mut node = MinionTreeNode::WaitForGround;
    assert_eq!(node.resume_with(5, &mut thoughts), PoweredFunctionState::Complete(5));
    assert_eq!(thoughts, before);
}

#[test]
fn player_in_range_is_a_box_with_its_edges() {
    let mut thoughts = MinionThoughts::default();
    let mut node = MinionTreeNode::PlayerInRange(5000, 1000);
    assert_eq!(node.resume_with(1, &mut thoughts), PoweredFunctionState::Failed(1));
    thoughts.self_at = Vec2::new(100, 100);
    thoughts.player_at = Some(Vec2::new(5100, 1100));
    assert_eq!(node.resume_with(1, &mut thoughts), PoweredFunctionState::Complete(1));
    thoughts.player_at = Some(Vec2::new(-4900, -900));
    assert_eq!(node.resume_with(1, &mut thoughts), PoweredFunctionState::Complete(1));
    thoughts.player_at = Some(Vec2::new(5101, 100));
    assert_eq!(node.resume_with(1, &mut thoughts), PoweredFunctionState::Failed(1));
    thoughts.player_at = Some(Vec2::new(100, -901));
    assert_eq!(node.resume_with(1, &mut thoughts), PoweredFunctionState::Failed(1));
    let mut node = MinionTreeNode::PlayerInRange(0, 0);
    assert_eq!(node.resume_with(1, &mut thoughts), PoweredFunctionState::Failed(1));
    thoughts.player_at = Some(Vec2::new(100, 100));
    assert_eq!(node.resume_with(1, &mut thoughts), PoweredFunctionState::Complete(1));
    let mut node = MinionTreeNode::PlayerInRange(u32::MAX, u32::MAX);
    thoughts.self_at = Vec2::new(i32::MIN, i32::MAX);
    thoughts.player_at = Some(Vec2::new(i32::MAX, i32::MIN));
    assert_eq!(node.resume_with(1, &mut thoughts), PoweredFunctionState::Complete(1));
}

#[test]
fn minion_lunge_sets_its_intent_waits_and_clears_it() {
    let mut thoughts = MinionThoughts::default();
    thoughts.on_the_ground = true;
    thoughts.self_at = Vec2::new(1000, 0);
    thoughts.player_at = Some(Vec2::new(4000, 500));
    thoughts.animation = String::from("Idle");
    let mut node = MinionTreeNode::LungeAtPlayer(20000, 10000);
    assert_eq!(node.resume_with(9, &mut thoughts), PoweredFunctionState::Waiting(9));
    assert_eq!(thoughts.lunge_towards, Some((Offset { x: 3000, y: 500 }, 20000, 10000)));
    assert_eq!(node.resume_with(9, &mut thoughts), PoweredFunctionState::Waiting(9));
    assert_eq!(thoughts.lunge_towards, Some((Offset { x: 3000, y: 500 }, 20000, 10000)));
    thoughts.animation = lunge_name();
    thoughts.on_the_ground = false;
    assert_eq!(node.resume_with(9, &mut thoughts), PoweredFunctionState::Waiting(9));
    assert_eq!(thoughts.lunge_towards, Some((Offset { x: 3000, y: 500 }, 20000, 10000)));
    thoughts.animation_complete = true;
    assert_eq!(node.resume_with(9, &mut thoughts), PoweredFunctionState::Complete(9));
    assert_eq!(thoughts.lunge_towards, None);
    assert_eq!(node, MinionTreeNode::LungeAtPlayer(20000, 10000));
}

#[test]
fn lunge_fails_off_the_ground_and_without_a_target() {
    let mut thoughts = MinionThoughts::default();
    thoughts.player_at = Some(Vec2::new(4000, 500));
    thoughts.lunge_towards = Some((Offset { x: 1, y: 1 }, 2, 3));
    let mut node = MinionTreeNode::LungeAtPlayer(20000, 10000);
    assert_eq!(node.resume_with(9, &mut thoughts), PoweredFunctionState::Failed(9));
    assert_eq!(thoughts.lunge_towards, None);
    thoughts.on_the_ground = true;
    thoughts.player_at = None;
    thoughts.lunge_towards = Some((Offset { x: 1, y: 1 }, 2, 3));
    assert_eq!(node.resume_with(9, &mut thoughts), PoweredFunctionState::Failed(9));
    assert_eq!(thoughts.lunge_towards, None);
}

#[test]
fn lunge_away_points_away_along_the_ground() {
    let mut thoughts = MinionThoughts::default();
    thoughts.on_the_ground = true;
    thoughts.self_at = Vec2::new(1000, 0);
    thoughts.player_at = Some(Vec2::new(4000, 500));
    let mut node = MinionTreeNode::LungeAway(7, 8);
    assert_eq!(node.resume_with(9, &mut thoughts), PoweredFunctionState::Waiting(9));
    assert_eq!(thoughts.lunge_towards, Some((Offset { x: -3000, y: 0 }, 7, 8)));
    thoughts.animation = lunge_name();
    thoughts.animation_complete = true;
    assert_eq!(node.resume_with(9, &mut thoughts), PoweredFunctionState::Complete(9));
    assert_eq!(thoughts.lunge_towards, None);
    thoughts.animation = String::from("Idle");
    thoughts.player_at = None;
    assert_eq!(node.resume_with(9, &mut thoughts), PoweredFunctionState::Failed(9));
}

#[test]
fn shoot_at_player_asks_for_a_shot() {
    let mut thoughts = MinionThoughts::default();
    let mut node = MinionTreeNode::ShootAtPlayer;
    assert_eq!(node.resume_with(2, &mut thoughts), PoweredFunctionState::Failed(2));
    assert_eq!(thoughts.shoot_at, None);
    thoughts.self_at = Vec2::new(5, 5);
    thoughts.player_at = Some(Vec2::new(2, 9));
    assert_eq!(node.resume_with(2, &mut thoughts), PoweredFunctionState::Complete(2));
    assert_eq!(thoughts.shoot_at, Some(Offset { x: -3, y: 4 }));
}

#[test]
fn idle_counts_the_frame_times_up_to_its_duration() {
    let mut thoughts = MinionThoughts::default();
    thoughts.frame_time = 4;
    let mut node = MinionTreeNode::Idle { duration: 10, progress: 0 };
    assert_eq!(node.resume_with(3, &mut thoughts), PoweredFunctionState::Waiting(3));
    assert_eq!(node, MinionTreeNode::Idle { duration: 10, progress: 4 });
    assert!(thoughts.idling);
    thoughts.idling = false;
    assert_eq!(node.resume_with(3, &mut thoughts), PoweredFunctionState::Waiting(3));
    assert_eq!(node, MinionTreeNode::Idle { duration: 10, progress: 8 });
    assert!(thoughts.idling);
    thoughts.idling = false;
    assert_eq!(node.resume_with(3, &mut thoughts), PoweredFunctionState::Complete(3));
    assert_eq!(node, MinionTreeNode::Idle { duration: 10, progress: 0 });
    assert!(!thoughts.idling);
}

#[test]
fn idle_ends_when_the_time_is_reached_exactly_and_never_overflows() {
    let mut thoughts = MinionThoughts::default();
    thoughts.frame_time = 5;
    let mut node = MinionTreeNode::Idle { duration: 10, progress: 5 };
    assert_eq!(node.resume_with(3, &mut thoughts), PoweredFunctionState::Complete(3));
    thoughts.frame_time = u32::MAX;
    let mut node = MinionTreeNode::Idle { duration: u32::MAX, progress: u32::MAX - 1 };
    assert_eq!(node.resume_with(3, &mut thoughts), PoweredFunctionState::Complete(3));
    assert_eq!(node, MinionTreeNode::Idle { duration: u32::MAX, progress: 0 });
    let mut node = MinionTreeNode::Idle { duration: 0, progress: 0 };
    thoughts.frame_time = 0;
    assert_eq!(node.resume_with(3, &mut thoughts), PoweredFunctionState::Complete(3));
}

#[test]
fn reset_clears_the_idle_progress_only() {
    let mut thoughts = MinionThoughts::default();
    let before = thoughts.clone();
    let mut node = MinionTreeNode::Idle { duration: 10, progress: 7 };
    node.reset(&mut thoughts);
    assert_eq!(node, MinionTreeNode::Idle { duration: 10, progress: 0 });
    let mut node = MinionTreeNode::LungeAway(1, 2);
    node.reset(&mut thoughts);
    assert_eq!(node, MinionTreeNode::LungeAway(1, 2));
    assert_eq!(thoughts, before);
}

#[test]
fn definitions_make_their_leaves() {
    assert_eq!(MinionTreeNodeDef::OnTheGround.create_node(), MinionTreeNode::OnTheGround);
    assert_eq!(MinionTreeNodeDef::IsTimid.create_node(), MinionTreeNode::IsTimid);
    assert_eq!(MinionTreeNodeDef::WaitForGround.create_node(), MinionTreeNode::WaitForGround);
    assert_eq!(MinionTreeNodeDef::PlayerVisible.create_node(), MinionTreeNode::PlayerVisible);
    assert_eq!(
        MinionTreeNodeDef::PlayerInRange(3, 4).create_node(),
        MinionTreeNode::PlayerInRange(3, 4)
    );
    assert_eq!(
        MinionTreeNodeDef::LungeAtPlayer(3, 4).create_node(),
        MinionTreeNode::LungeAtPlayer(3, 4)
    );
    assert_eq!(MinionTreeNodeDef::LungeAway(3, 4).create_node(), MinionTreeNode::LungeAway(3, 4));
    assert_eq!(MinionTreeNodeDef::ShootAtPlayer.create_node(), MinionTreeNode::ShootAtPlayer);
    assert_eq!(
        MinionTreeNodeDef::Idle(9).create_node(),
        MinionTreeNode::Idle { duration: 9, progress: 0 }
    );
}

#[test]
fn minion_brain_is_the_choice_of_two_attacks_under_the_wrapper() {
    let def = minion_brain_def();
    match &def {
        PoweredTreeDef::ResetOnInterrupt(child) => match &**child {
            PoweredTreeDef::Selector(attacks) => {
                assert_eq!(attacks.len(), 2);
                assert_eq!(
                    attacks[0],
                    PoweredTreeDef::Sequence(vec![
                        PoweredTreeDef::User(MinionTreeNodeDef::OnTheGround),
                        PoweredTreeDef::User(MinionTreeNodeDef::PlayerVisible),
                        PoweredTreeDef::User(MinionTreeNodeDef::PlayerInRange(5000, 1000)),
                        PoweredTreeDef::User(MinionTreeNodeDef::LungeAtPlayer(20000, 10000)),
                        PoweredTreeDef::User(MinionTreeNodeDef::WaitForGround),
                        PoweredTreeDef::User(MinionTreeNodeDef::Idle(1000000)),
                    ])
                );
                assert_eq!(
                    attacks[1],
                    PoweredTreeDef::Sequence(vec![
                        PoweredTreeDef::User(MinionTreeNodeDef::OnTheGround),
                        PoweredTreeDef::User(MinionTreeNodeDef::PlayerVisible),
                        PoweredTreeDef::User(MinionTreeNodeDef::Idle(1000000)),
                        PoweredTreeDef::User(MinionTreeNodeDef::LungeAtPlayer(20000, 10000)),
                        PoweredTreeDef::User(MinionTreeNodeDef::WaitForGround),
                        PoweredTreeDef::User(MinionTreeNodeDef::Idle(1000000)),
                    ])
                );
            }
            _ => panic!("not a selector"),
        },
        _ => panic!("not a wrapper"),
    }
    assert_eq!(minion_brain(), def.create_tree());
    assert_eq!(GAS_PER_TICK, 99999);
    assert_eq!(IDLE_TIME, 1000000);
}

fn cursors(brain: &MinionBrain) -> (usize, usize, usize) {
    match &brain.0 {
        PoweredTree::ResetOnInterrupt(child) => match &**child {
            PoweredTree::Composite { children, cursor, .. } => {
                let inner = |i: usize| match &children[i] {
                    PoweredTree::Composite { cursor, .. } => *cursor,
                    _ => panic!("not a composite"),
                };
                (*cursor, inner(0), inner(1))
            }
            _ => panic!("not a composite"),
        },
        _ => panic!("not a wrapper"),
    }
}

#[test]
fn a_minion_near_the_player_lunges_lands_and_idles() {
    let mut brain = MinionBrain(minion_brain());
    let mut thoughts = MinionThoughts::default();
    thoughts.on_the_ground = true;
    thoughts.self_at = Vec2::new(0, 0);
    thoughts.player_at = Some(Vec2::new(-2000, 500));
    thoughts.animation = String::from("Idle");
    thoughts.frame_time = 400000;
    minion_brain_system(&mut brain, &mut thoughts);
    assert_eq!(thoughts.lunge_towards, Some((Offset { x: -2000, y: 500 }, 20000, 10000)));
    assert_eq!(cursors(&brain), (0, 3, 0));
    assert_eq!(
        minion_impulse_system(&thoughts),
        MinionImpulse::Lunge {
            direction: Offset { x: -2000, y: 500 },
            speed: 20000,
            rise: 10000,
            flip_x: true
        }
    );
    thoughts.animation = lunge_name();
    thoughts.on_the_ground = false;
    minion_brain_system(&mut brain, &mut thoughts);
    assert_eq!(cursors(&brain), (0, 3, 0));
    thoughts.animation_complete = true;
    minion_brain_system(&mut brain, &mut thoughts);
    assert_eq!(thoughts.lunge_towards, None);
    assert_eq!(cursors(&brain), (0, 4, 0));
    assert_eq!(minion_impulse_system(&thoughts), MinionImpulse::Rest);
    thoughts.on_the_ground = true;
    minion_brain_system(&mut brain, &mut thoughts);
    assert!(thoughts.idling);
    assert_eq!(cursors(&brain), (0, 5, 0));
    assert_eq!(minion_impulse_system(&thoughts), MinionImpulse::Idle);
    thoughts.idling = false;
    minion_brain_system(&mut brain, &mut thoughts);
    assert!(thoughts.idling);
    thoughts.idling = false;
    minion_brain_system(&mut brain, &mut thoughts);
    assert!(!thoughts.idling);
    assert_eq!(cursors(&brain), (0, 0, 0));
    assert_eq!(brain.0, minion_brain());
}

#[test]
fn a_minion_far_from_the_player_pauses_before_the_lunge() {
    let mut brain = MinionBrain(minion_brain());
    let mut thoughts = MinionThoughts::default();
    thoughts.on_the_ground = true;
    thoughts.player_at = Some(Vec2::new(9000, 0));
    thoughts.frame_time = 600000;
    minion_brain_system(&mut brain, &mut thoughts);
    assert!(thoughts.idling);
    assert_eq!(thoughts.lunge_towards, None);
    assert_eq!(cursors(&brain), (1, 0, 2));
    thoughts.idling = false;
    minion_brain_system(&mut brain, &mut thoughts);
    assert!(!thoughts.idling);
    assert_eq!(thoughts.lunge_towards, Some((Offset { x: 9000, y: 0 }, 20000, 10000)));
    assert_eq!(cursors(&brain), (1, 0, 3));
    assert_eq!(
        minion_impulse_system(&thoughts),
        MinionImpulse::Lunge {
            direction: Offset { x: 9000, y: 0 },
            speed: 20000,
            rise: 10000,
            flip_x: false
        }
    );
}

#[test]
fn a_minion_that_sees_nobody_fails_and_starts_over() {
    let mut brain = MinionBrain(minion_brain());
    let mut thoughts = MinionThoughts::default();
    thoughts.on_the_ground = true;
    let before = thoughts.clone();
    minion_brain_system(&mut brain, &mut thoughts);
    assert_eq!(thoughts, before);
    assert_eq!(brain.0, minion_brain());
    let mut tree = minion_brain();
    assert_eq!(tree.resume_with(99999, &mut thoughts), PoweredFunctionState::Failed(99993));
}

#[test]
fn a_hit_stun_makes_the_brain_start_over() {
    let mut brain = MinionBrain(minion_brain());
    let mut thoughts = MinionThoughts::default();
    thoughts.on_the_ground = true;
    thoughts.player_at = Some(Vec2::new(9000, 0));
    thoughts.frame_time = 600000;
    minion_brain_system(&mut brain, &mut thoughts);
    assert_eq!(cursors(&brain), (1, 0, 2));
    thoughts.hit_stun = true;
    thoughts.idling = false;
    minion_brain_system(&mut brain, &mut thoughts);
    assert_eq!(brain.0, minion_brain());
    assert!(!thoughts.idling);
}

#[test]
fn thought_update_takes_over_the_senses() {
    let mut thoughts = MinionThoughts::default();
    thoughts.idling = true;
    thoughts.player_at = Some(Vec2::new(1, 1));
    thoughts.self_at = Vec2::new(7, 7);
    thoughts.lunge_towards = Some((Offset { x: 1, y: 2 }, 3, 4));
    thoughts.hit_stun = true;
    thoughts.timid = true;
    minion_thought_update_system(
        &mut thoughts,
        MinionSenses {
            frame_time: 16000,
            on_the_ground: true,
            animation: String::from("Walk"),
            animation_complete: true,
            position: None,
        },
    );
    assert_eq!(thoughts.frame_time, 16000);
    assert!(thoughts.on_the_ground);
    assert_eq!(thoughts.animation, "Walk");
    assert!(thoughts.animation_complete);
    assert!(!thoughts.idling);
    assert_eq!(thoughts.player_at, None);
    assert_eq!(thoughts.self_at, Vec2::new(7, 7));
    assert_eq!(thoughts.lunge_towards, Some((Offset { x: 1, y: 2 }, 3, 4)));
    assert!(thoughts.hit_stun);
    assert!(thoughts.timid);
    minion_thought_update_system(
        &mut thoughts,
        MinionSenses {
            frame_time: 17000,
            on_the_ground: false,
            animation: String::from("Lunge"),
            animation_complete: false,
            position: Some((Vec2::new(2, 3), Some(Vec2::new(9, 9)))),
        },
    );
    assert_eq!(thoughts.self_at, Vec2::new(2, 3));
    assert_eq!(thoughts.player_at, Some(Vec2::new(9, 9)));
    assert!(thoughts.is_lunging());
    minion_thought_update_system(
        &mut thoughts,
        MinionSenses {
            frame_time: 17000,
            on_the_ground: false,
            animation: String::from("lunge"),
            animation_complete: false,
            position: Some((Vec2::new(2, 4), None)),
        },
    );
    assert_eq!(thoughts.self_at, Vec2::new(2, 4));
    assert_eq!(thoughts.player_at, None);
    assert!(!thoughts.is_lunging());
}

#[test]
fn impulse_puts_idling_before_a_lunge() {
    let mut thoughts = MinionThoughts::default();
    assert_eq!(minion_impulse_system(&thoughts), MinionImpulse::Rest);
    thoughts.lunge_towards = Some((Offset { x: 0, y: 2 }, 3, 4));
    assert_eq!(
        minion_impulse_system(&thoughts),
        MinionImpulse::Lunge { direction: Offset { x: 0, y: 2 }, speed: 3, rise: 4, flip_x: false }
    );
    thoughts.idling = true;
    assert_eq!(minion_impulse_system(&thoughts), MinionImpulse::Idle);
}

#[test]
fn a_hit_stun_is_the_minions_interrupt() {
    let mut thoughts = MinionThoughts::default();
    assert!(!thoughts.is_interrupted());
    thoughts.hit_stun = true;
    assert!(thoughts.is_interrupted());
}

#[test]
fn an_attack_hits_a_minion_once() {
    let mut minion = Minion::new(10000, 1);
    assert_eq!(minion.los_distance, 10000);
    assert_eq!(minion.timidity, 1);
    assert!(minion.hit_by.is_empty());
    assert!(!minion.has_been_hit_by(4));
    assert!(minion.hit(4));
    assert!(minion.has_been_hit_by(4));
    assert!(!minion.has_been_hit_by(9));
    assert!(!minion.hit(4));
    assert!(minion.hit(9));
    assert!(!minion.hit(4));
    assert!(!minion.hit(9));
    assert_eq!(minion.hit_by, vec![4, 9]);
}

#[test]
fn a_minion_can_be_copied() {
    let mut minion = Minion::new(10000, 1);
    minion.hit(3);
    let copy = minion.clone();
    assert_eq!(copy, minion);
    minion.hit(4);
    assert_eq!(copy.hit_by, vec![3]);
    assert_eq!(Minion::default(), Minion::new(0, 0));
}

#[test]
fn a_minion_is_timid_below_its_threshold() {
    let minion = Minion::new(10000, 2);
    assert!(minion.is_timid(1));
    assert!(!minion.is_timid(2));
    assert!(!minion.is_timid(3));
}

//! The attack scripts: their blackboard, their vocabulary, and the driver
//! that runs one script per attack and clears it away when it has ended.
use crate::ai::lemmas::lemma_def_trees;
use crate::ai::powered::{
    def_trees, tree_resumed, CompositeKind, Interruptible, PoweredFunction, PoweredFunctionState, PoweredTree,
    PoweredTreeDef, Resumed, TreeModel, UserNodeDefinition,
};
use crate::animation::component_types::AnimationState;
use crate::combat::entity::ContactType;
use crate::geometry::Vec2;
use crate::player::PlayerState;
use vstd::prelude::*;
use vstd::string::StringExecFns;

verus! {

/// What an attack script knows during one tick, and what it asks for.
///
/// The host refreshes the senses before the script runs and carries out the
/// requests (`set_speed`, `play_animation`, `animation_frame`, `intangible`,
/// `attack_damage`) after it.
#[derive(Debug, PartialEq, Eq)]
pub struct AttackImpulses {
    pub attack_id: u32,
    pub attack_damage: i32,
    pub speed: Vec2,
    pub set_speed: Option<Vec2>,
    pub play_animation: Option<String>,
    pub animation_frame: Option<usize>,
    /// The time that the frame set last still has to show.
    pub animation_time: i64,
    pub on_the_ground: bool,
    pub animation: String,
    pub animation_complete: bool,
    /// The minions that the attack has hit so far.
    pub hit_minions: Vec<u64>,
    pub intangible: bool,
}

impl Clone for AttackImpulses {
    fn clone(&self) -> (copy: AttackImpulses)
        ensures
            copy.hit_minions@ == self.hit_minions@,
            copy == (AttackImpulses { hit_minions: copy.hit_minions, ..*self }),
    {
        AttackImpulses {
            attack_id: self.attack_id,
            attack_damage: self.attack_damage,
            speed: self.speed,
            set_speed: self.set_speed,
            play_animation: match &self.play_animation {
                Some(animation) => Some(animation.clone()),
                None => None,
            },
            animation_frame: self.animation_frame,
            animation_time: self.animation_time,
            on_the_ground: self.on_the_ground,
            animation: self.animation.clone(),
            animation_complete: self.animation_complete,
            hit_minions: self.hit_minions.clone(),
            intangible: self.intangible,
        }
    }
}

impl Default for AttackImpulses {
    fn default() -> (impulses: AttackImpulses)
        ensures
            impulses.attack_id == 0,
            impulses.attack_damage == 0,
            impulses.speed == (Vec2 { x: 0, y: 0 }),
            impulses.set_speed is None,
            impulses.play_animation is None,
            impulses.animation_frame is None,
            impulses.animation_time == 0,
            !impulses.on_the_ground,
            impulses.animation@ == Seq::<char>::empty(),
            !impulses.animation_complete,
            impulses.hit_minions@ == Seq::<u64>::empty(),
            !impulses.intangible,
    {
        AttackImpulses::new(0)
    }
}

impl AttackImpulses {
    /// The blackboard of a new attack: nothing sensed, nothing asked for.
    pub fn new(attack_id: u32) -> (impulses: AttackImpulses)
        ensures
            impulses.attack_id == attack_id,
            impulses.attack_damage == 0,
            impulses.speed == (Vec2 { x: 0, y: 0 }),
            impulses.set_speed is None,
            impulses.play_animation is None,
            impulses.animation_frame is None,
            impulses.animation_time == 0,
            !impulses.on_the_ground,
            impulses.animation@ == Seq::<char>::empty(),
            !impulses.animation_complete,
            impulses.hit_minions@ == Seq::<u64>::empty(),
            !impulses.intangible,
    {
        AttackImpulses {
            attack_id,
            attack_damage: 0,
            speed: Vec2 { x: 0, y: 0 },
            set_speed: None,
            play_animation: None,
            animation_frame: None,
            animation_time: 0,
            on_the_ground: false,
            animation: String::new(),
            animation_complete: false,
            hit_minions: Vec::new(),
            intangible: false,
        }
    }
}

impl Interruptible for AttackImpulses {
    /// Nothing interrupts an attack script: its driver discards it instead.
    open spec fn interrupted(&self) -> bool {
        false
    }

    fn is_interrupted(&self) -> (b: bool) {
        false
    }
}

/// A leaf of an attack script. It keeps no progress of its own, so the
/// definition is the live leaf as well.
#[derive(Debug, PartialEq, Eq)]
pub enum AttackTreeNodeDef {
    /// Sets the damage that the attack deals.
    SetDamage(i32),
    /// Asks for this velocity.
    Velocity(i32, i32),
    /// Takes back the request for a velocity.
    ClearVelocity,
    /// Asks for this animation.
    PlayAnimation(String),
    /// Asks for this frame, to show for this long.
    SetFrame(usize, i64),
    /// Waits until the frame set last has shown for its time.
    WaitForFrame,
    /// Waits until this animation has played to its end.
    WaitForAnimation(String),
    /// Waits until the attacker stands on the ground.
    WaitForGround,
    /// Succeeds on the ground, fails in the air.
    OnTheGround,
    /// Waits until the attack has hit something.
    WaitForHit,
    /// Marks the attacker as intangible.
    GoIntangible,
}

impl Clone for AttackTreeNodeDef {
    fn clone(&self) -> (copy: AttackTreeNodeDef)
        ensures
            copy == *self,
    {
        match self {
            AttackTreeNodeDef::SetDamage(damage) => AttackTreeNodeDef::SetDamage(*damage),
            AttackTreeNodeDef::Velocity(x, y) => AttackTreeNodeDef::Velocity(*x, *y),
            AttackTreeNodeDef::ClearVelocity => AttackTreeNodeDef::ClearVelocity,
            AttackTreeNodeDef::PlayAnimation(animation) => AttackTreeNodeDef::PlayAnimation(
                animation.clone(),
            ),
            AttackTreeNodeDef::SetFrame(frame, time) => AttackTreeNodeDef::SetFrame(*frame, *time),
            AttackTreeNodeDef::WaitForFrame => AttackTreeNodeDef::WaitForFrame,
            AttackTreeNodeDef::WaitForAnimation(animation) => AttackTreeNodeDef::WaitForAnimation(
                animation.clone(),
            ),
            AttackTreeNodeDef::WaitForGround => AttackTreeNodeDef::WaitForGround,
            AttackTreeNodeDef::OnTheGround => AttackTreeNodeDef::OnTheGround,
            AttackTreeNodeDef::WaitForHit => AttackTreeNodeDef::WaitForHit,
            AttackTreeNodeDef::GoIntangible => AttackTreeNodeDef::GoIntangible,
        }
    }
}

impl View for AttackTreeNodeDef {
    type V = AttackTreeNodeDef;

    open spec fn view(&self) -> AttackTreeNodeDef {
        *self
    }
}

/// What a leaf of an attack script comes to, and the blackboard afterwards.
pub open spec fn attack_step(node: AttackTreeNodeDef, gas_left: i32, world: AttackImpulses) -> (
    PoweredFunctionState,
    AttackImpulses,
) {
    let complete = PoweredFunctionState::Complete(gas_left);
    let failed = PoweredFunctionState::Failed(gas_left);
    let waiting = PoweredFunctionState::Waiting(gas_left);
    match node {
        AttackTreeNodeDef::SetDamage(damage) => (
            complete,
            AttackImpulses { attack_damage: damage, ..world },
        ),
        AttackTreeNodeDef::Velocity(x, y) => (
            complete,
            AttackImpulses { set_speed: Some(Vec2 { x, y }), ..world },
        ),
        AttackTreeNodeDef::ClearVelocity => (complete, AttackImpulses { set_speed: None, ..world }),
        AttackTreeNodeDef::PlayAnimation(animation) => (
            complete,
            AttackImpulses { play_animation: Some(animation), ..world },
        ),
        AttackTreeNodeDef::SetFrame(frame, time) => (
            complete,
            AttackImpulses { animation_frame: Some(frame), animation_time: time, ..world },
        ),
        AttackTreeNodeDef::WaitForFrame => (
            if world.animation_time <= 0 {
                complete
            } else {
                waiting
            },
            world,
        ),
        AttackTreeNodeDef::WaitForAnimation(animation) => {
            if world.animation@ == animation@ {
                (
                    if world.animation_complete {
                        complete
                    } else {
                        waiting
                    },
                    AttackImpulses { play_animation: None, ..world },
                )
            } else if world.play_animation is None {
                (failed, world)
            } else {
                (waiting, world)
            }
        },
        AttackTreeNodeDef::WaitForGround => (
            if world.on_the_ground {
                complete
            } else {
                waiting
            },
            world,
        ),
        AttackTreeNodeDef::OnTheGround => (
            if world.on_the_ground {
                complete
            } else {
                failed
            },
            world,
        ),
        AttackTreeNodeDef::WaitForHit => (
            if world.hit_minions@.len() > 0 {
                complete
            } else {
                waiting
            },
            world,
        ),
        AttackTreeNodeDef::GoIntangible => (complete, AttackImpulses { intangible: true, ..world }),
    }
}

impl PoweredFunction for AttackTreeNodeDef {
    type World = AttackImpulses;

    open spec fn resumed(node: AttackTreeNodeDef, gas_left: i32, world: AttackImpulses) -> Resumed<
        AttackTreeNodeDef,
        AttackImpulses,
    > {
        let (state, world) = attack_step(node, gas_left, world);
        Resumed { state, node, world }
    }

    open spec fn reset_of(node: AttackTreeNodeDef, world: AttackImpulses) -> (
        AttackTreeNodeDef,
        AttackImpulses,
    ) {
        (node, world)
    }

    proof fn lemma_resumed_within_budget(
        node: AttackTreeNodeDef,
        gas_left: i32,
        world: AttackImpulses,
    ) {
    }

    fn resume_with(&mut self, gas_left: i32, attack: &mut AttackImpulses) -> (state:
        PoweredFunctionState) {
        match self {
            AttackTreeNodeDef::SetDamage(damage) => {
                attack.attack_damage = *damage;
                PoweredFunctionState::Complete(gas_left)
            },
            AttackTreeNodeDef::Velocity(x, y) => {
                attack.set_speed = Some(Vec2 { x: *x, y: *y });
                PoweredFunctionState::Complete(gas_left)
            },
            AttackTreeNodeDef::ClearVelocity => {
                attack.set_speed = None;
                PoweredFunctionState::Complete(gas_left)
            },
            AttackTreeNodeDef::SetFrame(frame, time) => {
                attack.animation_frame = Some(*frame);
                attack.animation_time = *time;
                PoweredFunctionState::Complete(gas_left)
            },
            AttackTreeNodeDef::PlayAnimation(animation) => {
                attack.play_animation = Some(animation.clone());
                PoweredFunctionState::Complete(gas_left)
            },
            AttackTreeNodeDef::WaitForFrame => {
                if attack.animation_time <= 0 {
                    PoweredFunctionState::Complete(gas_left)
                } else {
                    PoweredFunctionState::Waiting(gas_left)
                }
            },
            AttackTreeNodeDef::WaitForAnimation(animation) => {
                if attack.animation == *animation {
                    attack.play_animation = None;
                    if attack.animation_complete {
                        PoweredFunctionState::Complete(gas_left)
                    } else {
                        PoweredFunctionState::Waiting(gas_left)
                    }
                } else if attack.play_animation.is_none() {
                    PoweredFunctionState::Failed(gas_left)
                } else {
                    PoweredFunctionState::Waiting(gas_left)
                }
            },
            AttackTreeNodeDef::WaitForGround => {
                if attack.on_the_ground {
                    PoweredFunctionState::Complete(gas_left)
                } else {
                    PoweredFunctionState::Waiting(gas_left)
                }
            },
            AttackTreeNodeDef::OnTheGround => {
                if attack.on_the_ground {
                    PoweredFunctionState::Complete(gas_left)
                } else {
                    PoweredFunctionState::Failed(gas_left)
                }
            },
            AttackTreeNodeDef::WaitForHit => {
                if attack.hit_minions.len() > 0 {
                    PoweredFunctionState::Complete(gas_left)
                } else {
                    PoweredFunctionState::Waiting(gas_left)
                }
            },
            AttackTreeNodeDef::GoIntangible => {
                attack.intangible = true;
                PoweredFunctionState::Complete(gas_left)
            },
        }
    }

    fn reset(&mut self, attack: &mut AttackImpulses) {
    }
}

/// No leaf of an attack script spends gas or keeps progress, and only the
/// leaf that waits for an animation and the leaf that asks for the ground can fail.
pub proof fn lemma_attack_leaves_hand_the_gas_through(
    node: AttackTreeNodeDef,
    gas_left: i32,
    world: AttackImpulses,
)
    ensures
        AttackTreeNodeDef::resumed(node, gas_left, world).state.gas() == gas_left,
        AttackTreeNodeDef::resumed(node, gas_left, world).node == node,
        AttackTreeNodeDef::resumed(node, gas_left, world).state is Failed ==> node
            is WaitForAnimation || node is OnTheGround,
{
}

impl UserNodeDefinition for AttackTreeNodeDef {
    type Node = AttackTreeNodeDef;

    open spec fn node(&self) -> AttackTreeNodeDef {
        *self
    }

    proof fn lemma_new_node_is_clean(&self, world: AttackImpulses) {
    }

    fn create_node(&self) -> (node: AttackTreeNodeDef) {
        self.clone()
    }
}

/// The gas that a script gets for one tick: far more than any script spends.
pub const GAS_PER_TICK: i32 = 99999;

/// The damage of a slash.
pub const SLASH_DAMAGE: i32 = 1;

/// The attacks of the player.
#[derive(Clone, Copy, Debug, PartialEq, Eq, Structural)]
pub enum PlayerAttackType {
    /// A slash on the spot.
    Slash,
    /// A slash while running on with this speed.
    RunningSlash(i32),
    /// A slash in the air. It has no script yet.
    AirSlash,
    /// A plunge from the air. It has no script yet.
    Plunge,
}

impl Default for PlayerAttackType {
    fn default() -> (attack: PlayerAttackType)
        ensures
            attack == PlayerAttackType::Slash,
    {
        PlayerAttackType::Slash
    }
}

/// The script of a slash: move on with `speed`, go intangible, deal the
/// damage, and play `animation` to its end.
pub open spec fn slash_script(speed: i32, animation: String) -> TreeModel<AttackTreeNodeDef> {
    TreeModel::Composite {
        kind: CompositeKind::Sequence,
        children: seq![
            TreeModel::User(AttackTreeNodeDef::Velocity(speed, 0)),
            TreeModel::User(AttackTreeNodeDef::GoIntangible),
            TreeModel::User(AttackTreeNodeDef::SetDamage(SLASH_DAMAGE)),
            TreeModel::User(AttackTreeNodeDef::PlayAnimation(animation)),
            TreeModel::User(AttackTreeNodeDef::WaitForAnimation(animation)),
        ],
        cursor: 0,
    }
}

/// Whether `tree` is the script of a slash with this speed and an animation of this name.
pub open spec fn is_slash_script(tree: TreeModel<AttackTreeNodeDef>, speed: i32, name: Seq<char>) -> bool {
    exists|animation: String| animation@ == name && tree == slash_script(speed, animation)
}

impl PlayerAttackType {
    /// Whether the attack has a script.
    pub open spec fn scripted(self) -> bool {
        self is Slash || self is RunningSlash
    }

    /// Whether the attack has a script.
    pub fn is_scripted(&self) -> (scripted: bool)
        ensures
            scripted == self.scripted(),
    {
        match self {
            PlayerAttackType::Slash => true,
            PlayerAttackType::RunningSlash(_) => true,
            _ => false,
        }
    }

    /// Whether `tree` is the script of the attack as first made.
    pub open spec fn has_script(self, tree: TreeModel<AttackTreeNodeDef>) -> bool {
        match self {
            PlayerAttackType::Slash => is_slash_script(tree, 0, "Slash"@),
            PlayerAttackType::RunningSlash(speed) => is_slash_script(tree, speed, "RunningSlash"@),
            _ => false,
        }
    }

    /// Makes the script of the attack.
    pub fn get_brain(&self) -> (brain: PoweredTree<AttackTreeNodeDef>)
        requires
            self.scripted(),
        ensures
            self.has_script(brain@),
    {
        match self {
            PlayerAttackType::Slash => slash(0, "Slash"),
            PlayerAttackType::RunningSlash(speed) => slash(*speed, "RunningSlash"),
            _ => slash(0, "Slash"),
        }
    }
}

/// Makes the script of a slash.
fn slash(speed: i32, name: &str) -> (brain: PoweredTree<AttackTreeNodeDef>)
    ensures
        is_slash_script(brain@, speed, name@),
{
    let animation = String::from_str(name);
    let steps = vec![
        PoweredTreeDef::User(AttackTreeNodeDef::Velocity(speed, 0)),
        PoweredTreeDef::User(AttackTreeNodeDef::GoIntangible),
        PoweredTreeDef::User(AttackTreeNodeDef::SetDamage(SLASH_DAMAGE)),
        PoweredTreeDef::User(AttackTreeNodeDef::PlayAnimation(animation.clone())),
        PoweredTreeDef::User(AttackTreeNodeDef::WaitForAnimation(animation.clone())),
    ];
    proof {
        lemma_def_trees(steps@, 5);
        assert(def_trees(steps@, 5) =~= slash_script(speed, animation)->children);
    }
    let def = PoweredTreeDef::Sequence(steps);
    assert(def.tree() == slash_script(speed, animation));
    def.create_tree()
}

/// The live script of one attack.
#[derive(Debug, PartialEq, Eq)]
pub struct AttackBrain(pub PoweredTree<AttackTreeNodeDef>);

/// Brings the blackboard of an attack up to date before its script runs: the
/// senses are taken over and the frame's time runs down by `frame_time`.
pub fn attack_impulse_update_system(
    impulses: &mut AttackImpulses,
    on_the_ground: bool,
    frame_time: u32,
    animation: String,
    animation_complete: bool,
    speed: Vec2,
)
    ensures
        *final(impulses) == (AttackImpulses {
            on_the_ground,
            animation_time: if old(impulses).animation_time - frame_time < i64::MIN {
                i64::MIN
            } else {
                (old(impulses).animation_time - frame_time) as i64
            },
            animation,
            animation_complete,
            speed,
            ..*old(impulses)
        }),
{
    impulses.on_the_ground = on_the_ground;
    if impulses.animation_time < i64::MIN + frame_time as i64 {
        impulses.animation_time = i64::MIN;
    } else {
        impulses.animation_time = impulses.animation_time - frame_time as i64;
    }
    impulses.animation = animation;
    impulses.animation_complete = animation_complete;
    impulses.speed = speed;
}

/// What belongs to a player's attack: who steers the player, the attack that
/// was asked for, and the script with its blackboard while one runs.
#[derive(Debug, PartialEq, Eq)]
pub struct Attacker {
    pub state: PlayerState,
    pub attack: Option<PlayerAttackType>,
    pub script: Option<AttackScript>,
}

/// A script that runs, with its blackboard.
#[derive(Debug, PartialEq, Eq)]
pub struct AttackScript {
    pub brain: AttackBrain,
    pub impulses: AttackImpulses,
}

/// What the driver did with an attacker during a tick.
#[derive(Clone, Copy, Debug, PartialEq, Eq, Structural)]
pub enum AttackEvent {
    /// No attack was asked for and none runs.
    Nothing,
    /// The attack that was asked for got its script, under this number.
    Started(u32),
    /// The script ran and waits for its next tick.
    Running,
    /// The script came to its end and was cleared away with all that belonged to it.
    Ended,
}

impl Attacker {
    /// An attacker under the player's control, with no attack asked for.
    pub fn new() -> (attacker: Attacker)
        ensures
            attacker.state == PlayerState::Controlled,
            attacker.attack is None,
            attacker.script is None,
    {
        Attacker { state: PlayerState::Controlled, attack: None, script: None }
    }

    /// Whether the driver can take the attacker through a tick: an attack
    /// that is to start has a script, and a number is left for it.
    pub open spec fn can_tick(self, next_attack_id: u32) -> bool {
        self.script is None && self.attack is Some ==> self.attack->0.scripted() && next_attack_id
            < u32::MAX
    }

    /// Whether the driver can take the attacker through a tick.
    pub fn is_ready(&self, next_attack_id: u32) -> (ready: bool)
        ensures
            ready == self.can_tick(next_attack_id),
    {
        match (&self.script, &self.attack) {
            (None, Some(attack)) => attack.is_scripted() && next_attack_id < u32::MAX,
            _ => true,
        }
    }
}

/// Takes an attacker through one tick.
///
/// A script that runs is resumed. If it comes to `Complete` or `Failed`, the
/// script, its blackboard and the attack that was asked for are cleared away
/// and the player is under control again; if it waits, nothing else changes.
/// With no script, an attack that was asked for gets its script and a
/// blackboard under the next number, and steers the player from now on.
/// With neither, nothing happens.
pub fn attack_brain_system(attacker: &mut Attacker, next_attack_id: &mut u32) -> (event:
    AttackEvent)
    requires
        old(attacker).can_tick(*old(next_attack_id)),
    ensures
        match old(attacker).script {
            Some(script) => {
                let r = tree_resumed::<AttackTreeNodeDef>(
                    script.brain.0@,
                    GAS_PER_TICK,
                    script.impulses,
                );
                &&& *final(next_attack_id) == *old(next_attack_id)
                &&& if r.state.is_terminal() {
                    &&& event == AttackEvent::Ended
                    &&& final(attacker).state == PlayerState::Controlled
                    &&& final(attacker).attack is None
                    &&& final(attacker).script is None
                } else {
                    &&& event == AttackEvent::Running
                    &&& final(attacker).state == old(attacker).state
                    &&& final(attacker).attack == old(attacker).attack
                    &&& final(attacker).script is Some
                    &&& final(attacker).script->0.brain.0@ == r.node
                    &&& final(attacker).script->0.impulses == r.world
                }
            },
            None => match old(attacker).attack {
                Some(attack) => {
                    &&& event == AttackEvent::Started(*old(next_attack_id))
                    &&& *final(next_attack_id) == *old(next_attack_id) + 1
                    &&& final(attacker).state == PlayerState::Attacking
                    &&& final(attacker).attack == old(attacker).attack
                    &&& final(attacker).script is Some
                    &&& attack.has_script(final(attacker).script->0.brain.0@)
                    &&& final(attacker).script->0.impulses.attack_id == *old(next_attack_id)
                    &&& final(attacker).script->0.impulses.hit_minions@ == Seq::<u64>::empty()
                    &&& final(attacker).script->0.impulses.attack_damage == 0
                    &&& !final(attacker).script->0.impulses.intangible
                    &&& final(attacker).script->0.impulses.set_speed is None
                    &&& final(attacker).script->0.impulses.play_animation is None
                    &&& final(attacker).script->0.impulses.animation_frame is None
                    &&& final(attacker).script->0.impulses.speed == (Vec2 { x: 0, y: 0 })
                    &&& final(attacker).script->0.impulses.animation_time == 0
                    &&& !final(attacker).script->0.impulses.on_the_ground
                    &&& final(attacker).script->0.impulses.animation@ == Seq::<char>::empty()
                    &&& !final(attacker).script->0.impulses.animation_complete
                },
                None => {
                    &&& event == AttackEvent::Nothing
                    &&& *final(next_attack_id) == *old(next_attack_id)
                    &&& final(attacker).state == old(attacker).state
                    &&& final(attacker).attack is None
                    &&& final(attacker).script is None
                },
            },
        },
{
    let script = attacker.script.take();
    match script {
        Some(mut script) => {
            let state = script.brain.0.resume_with(GAS_PER_TICK, &mut script.impulses);
            if state.terminal() {
                attacker.state = PlayerState::Controlled;
                attacker.attack = None;
                AttackEvent::Ended
            } else {
                attacker.script = Some(script);
                AttackEvent::Running
            }
        },
        None => match attacker.attack {
            Some(attack) => {
                let attack_id = *next_attack_id;
                attacker.state = PlayerState::Attacking;
                attacker.script = Some(
                    AttackScript {
                        brain: AttackBrain(attack.get_brain()),
                        impulses: AttackImpulses::new(attack_id),
                    },
                );
                *next_attack_id = attack_id + 1;
                AttackEvent::Started(attack_id)
            },
            None => AttackEvent::Nothing,
        },
    }
}

/// Carries out what the blackboard of an attack asks for: an intangible
/// attacker takes part in no contact, a frame that was asked for shows, a
/// velocity that was asked for is taken, and an animation that was asked
/// for begins, to play once.
pub fn attack_impulse_system(
    impulses: &AttackImpulses,
    sprite_index: &mut usize,
    animation_state: &mut AnimationState,
    velocity: &mut Vec2,
    contact_type: &mut ContactType,
)
    ensures
        *final(contact_type) == if impulses.intangible {
            ContactType::Inactive
        } else {
            *old(contact_type)
        },
        *final(sprite_index) == match impulses.animation_frame {
            Some(frame) => frame,
            None => *old(sprite_index),
        },
        *final(velocity) == match impulses.set_speed {
            Some(speed) => speed,
            None => *old(velocity),
        },
        match impulses.play_animation {
            Some(animation) => old(animation_state).goes_to(
                animation@,
                false,
                *final(animation_state),
            ),
            None => *final(animation_state) == *old(animation_state),
        },
{
    if impulses.intangible {
        *contact_type = ContactType::Inactive;
    }
    match impulses.animation_frame {
        Some(frame) => {
            *sprite_index = frame;
        },
        None => {},
    }
    match impulses.set_speed {
        Some(speed) => {
            *velocity = speed;
        },
        None => {},
    }
    match &impulses.play_animation {
        Some(animation) => {
            animation_state.transition_to(animation.as_str(), false);
        },
        None => {},
    }
}

} // verus!

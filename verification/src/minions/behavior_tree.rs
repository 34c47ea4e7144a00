//! The minions' blackboard and the vocabulary of their decision trees.
use crate::ai::powered::{
    Interruptible, PoweredFunction, PoweredFunctionState, Resumed, UserNodeDefinition,
};
use crate::geometry::{get_vec_to_target, offset_between, Offset, Vec2};
use vstd::prelude::*;
use vstd::string::StringExecFns;

verus! {

/// What a minion knows during one tick, and what it has decided to do.
///
/// The host refreshes the senses before the tree runs and carries out the
/// intents (`lunge_towards`, `shoot_at`, `idling`) after it.
#[derive(Debug, PartialEq, Eq)]
pub struct MinionThoughts {
    pub self_at: Vec2,
    pub player_at: Option<Vec2>,
    /// The direction, the speed and the rise of the lunge that the minion wants.
    pub lunge_towards: Option<(Offset, i32, i32)>,
    pub shoot_at: Option<Offset>,
    pub hit_stun: bool,
    pub frame_time: u32,
    pub idling: bool,
    pub on_the_ground: bool,
    pub animation: String,
    pub animation_complete: bool,
    pub timid: bool,
}

impl Clone for MinionThoughts {
    fn clone(&self) -> (copy: MinionThoughts)
        ensures
            copy == *self,
    {
        MinionThoughts {
            self_at: self.self_at,
            player_at: self.player_at,
            lunge_towards: self.lunge_towards,
            shoot_at: self.shoot_at,
            hit_stun: self.hit_stun,
            frame_time: self.frame_time,
            idling: self.idling,
            on_the_ground: self.on_the_ground,
            animation: self.animation.clone(),
            animation_complete: self.animation_complete,
            timid: self.timid,
        }
    }
}

impl Default for MinionThoughts {
    fn default() -> (thoughts: MinionThoughts)
        ensures
            thoughts.self_at == (Vec2 { x: 0, y: 0 }),
            thoughts.player_at is None,
            thoughts.lunge_towards is None,
            thoughts.shoot_at is None,
            !thoughts.hit_stun,
            thoughts.frame_time == 0,
            !thoughts.idling,
            !thoughts.on_the_ground,
            thoughts.animation@ == Seq::<char>::empty(),
            !thoughts.animation_complete,
            !thoughts.timid,
    {
        MinionThoughts {
            self_at: Vec2 { x: 0, y: 0 },
            player_at: None,
            lunge_towards: None,
            shoot_at: None,
            hit_stun: false,
            frame_time: 0,
            idling: false,
            on_the_ground: false,
            animation: String::new(),
            animation_complete: false,
            timid: false,
        }
    }
}

impl MinionThoughts {
    /// The way from the minion to the player, if the minion sees the player.
    pub open spec fn player_direction(self) -> Option<Offset> {
        match self.player_at {
            Some(player) => Some(offset_between(self.self_at, player)),
            None => None,
        }
    }

    /// Whether the lunge animation is the one playing.
    pub open spec fn lunging(self) -> bool {
        self.animation@ == "Lunge"@
    }

    /// The way from the minion to the player, if the minion sees the player.
    pub fn get_player_direction(&self) -> (direction: Option<Offset>)
        ensures
            direction == self.player_direction(),
    {
        match &self.player_at {
            Some(player) => Some(get_vec_to_target(&self.self_at, player)),
            None => None,
        }
    }

    /// Whether the lunge animation is the one playing.
    pub fn is_lunging(&self) -> (lunging: bool)
        ensures
            lunging == self.lunging(),
    {
        let lunge = String::from_str("Lunge");
        self.animation == lunge
    }
}

impl Interruptible for MinionThoughts {
    /// A minion's tree is interrupted while the minion is stunned by a hit.
    open spec fn interrupted(&self) -> bool {
        self.hit_stun
    }

    fn is_interrupted(&self) -> (b: bool) {
        self.hit_stun
    }
}

/// A leaf of a minion's tree definition. Extents and durations are
/// unsigned, so that every definition that can be written down is in range.
#[derive(Clone, Copy, Debug, PartialEq, Eq, Structural)]
pub enum MinionTreeNodeDef {
    /// Succeeds on the ground, fails in the air.
    OnTheGround,
    /// Succeeds if the minion is timid.
    IsTimid,
    /// Waits until the minion stands on the ground.
    WaitForGround,
    /// Succeeds if the minion sees the player.
    PlayerVisible,
    /// Succeeds if the player is within the box of these half extents around the minion.
    PlayerInRange(u32, u32),
    /// Lunges at the player with this speed and rise.
    LungeAtPlayer(i32, i32),
    /// Lunges away from the player with this speed and rise.
    LungeAway(i32, i32),
    /// Asks for a shot at the player.
    ShootAtPlayer,
    /// Idles for this long.
    Idle(u32),
}

/// A live leaf of a minion's tree.
#[derive(Clone, Copy, Debug, PartialEq, Eq, Structural)]
pub enum MinionTreeNode {
    OnTheGround,
    IsTimid,
    WaitForGround,
    PlayerVisible,
    PlayerInRange(u32, u32),
    LungeAtPlayer(i32, i32),
    LungeAway(i32, i32),
    ShootAtPlayer,
    /// `progress` is the time idled so far during this activation.
    Idle { duration: u32, progress: u32 },
}

impl View for MinionTreeNode {
    type V = MinionTreeNode;

    open spec fn view(&self) -> MinionTreeNode {
        *self
    }
}

/// `Complete` if the condition holds, `Failed` if not.
pub open spec fn tested(holds: bool, gas_left: i32) -> PoweredFunctionState {
    if holds {
        PoweredFunctionState::Complete(gas_left)
    } else {
        PoweredFunctionState::Failed(gas_left)
    }
}

/// `Complete` if the condition holds, `Waiting` if not.
pub open spec fn await_for(holds: bool, gas_left: i32) -> PoweredFunctionState {
    if holds {
        PoweredFunctionState::Complete(gas_left)
    } else {
        PoweredFunctionState::Waiting(gas_left)
    }
}

/// A lunge in `direction`, if there is one to lunge in.
///
/// While the lunge animation plays the node waits for its end and then drops
/// the intent. Before that it fails off the ground or without a direction,
/// dropping the intent, and else states the intent and waits.
pub open spec fn lunge(
    direction: Option<Offset>,
    speed: i32,
    rise: i32,
    gas_left: i32,
    world: MinionThoughts,
) -> (PoweredFunctionState, MinionThoughts) {
    if world.lunging() {
        if world.animation_complete {
            (
                PoweredFunctionState::Complete(gas_left),
                MinionThoughts { lunge_towards: None, ..world },
            )
        } else {
            (PoweredFunctionState::Waiting(gas_left), world)
        }
    } else if world.on_the_ground && direction is Some {
        (
            PoweredFunctionState::Waiting(gas_left),
            MinionThoughts { lunge_towards: Some((direction->0, speed, rise)), ..world },
        )
    } else {
        (PoweredFunctionState::Failed(gas_left), MinionThoughts { lunge_towards: None, ..world })
    }
}

/// The direction that leads away from the player along the ground.
pub open spec fn away(direction: Option<Offset>) -> Option<Offset> {
    match direction {
        Some(towards) => Some(Offset { x: (-towards.x) as i64, y: 0 }),
        None => None,
    }
}

impl PoweredFunction for MinionTreeNode {
    type World = MinionThoughts;

    open spec fn resumed(node: MinionTreeNode, gas_left: i32, world: MinionThoughts) -> Resumed<
        MinionTreeNode,
        MinionThoughts,
    > {
        match node {
            MinionTreeNode::OnTheGround => Resumed {
                state: tested(world.on_the_ground, gas_left),
                node,
                world,
            },
            MinionTreeNode::IsTimid => Resumed { state: tested(world.timid, gas_left), node, world },
            MinionTreeNode::WaitForGround => Resumed {
                state: await_for(world.on_the_ground, gas_left),
                node,
                world,
            },
            MinionTreeNode::PlayerVisible => Resumed {
                state: tested(world.player_at is Some, gas_left),
                node,
                world,
            },
            MinionTreeNode::PlayerInRange(half_width, half_height) => Resumed {
                state: tested(
                    world.player_direction() is Some && world.player_direction()->0.within(
                        half_width as i64,
                        half_height as i64,
                    ),
                    gas_left,
                ),
                node,
                world,
            },
            MinionTreeNode::LungeAtPlayer(speed, rise) => {
                let (state, world) = lunge(world.player_direction(), speed, rise, gas_left, world);
                Resumed { state, node, world }
            },
            MinionTreeNode::LungeAway(speed, rise) => {
                let (state, world) = lunge(
                    away(world.player_direction()),
                    speed,
                    rise,
                    gas_left,
                    world,
                );
                Resumed { state, node, world }
            },
            MinionTreeNode::ShootAtPlayer => match world.player_direction() {
                Some(direction) => Resumed {
                    state: PoweredFunctionState::Complete(gas_left),
                    node,
                    world: MinionThoughts { shoot_at: Some(direction), ..world },
                },
                None => Resumed { state: PoweredFunctionState::Failed(gas_left), node, world },
            },
            MinionTreeNode::Idle { duration, progress } => {
                if progress + world.frame_time < duration {
                    Resumed {
                        state: PoweredFunctionState::Waiting(gas_left),
                        node: MinionTreeNode::Idle {
                            duration,
                            progress: (progress + world.frame_time) as u32,
                        },
                        world: MinionThoughts { idling: true, ..world },
                    }
                } else {
                    Resumed {
                        state: PoweredFunctionState::Complete(gas_left),
                        node: MinionTreeNode::Idle { duration, progress: 0 },
                        world,
                    }
                }
            },
        }
    }

    open spec fn reset_of(node: MinionTreeNode, world: MinionThoughts) -> (
        MinionTreeNode,
        MinionThoughts,
    ) {
        match node {
            MinionTreeNode::Idle { duration, progress } => (
                MinionTreeNode::Idle { duration, progress: 0 },
                world,
            ),
            _ => (node, world),
        }
    }

    proof fn lemma_resumed_within_budget(
        node: MinionTreeNode,
        gas_left: i32,
        world: MinionThoughts,
    ) {
    }

    fn resume_with(&mut self, gas_left: i32, thoughts: &mut MinionThoughts) -> (state:
        PoweredFunctionState) {
        match self {
            MinionTreeNode::OnTheGround => {
                if thoughts.on_the_ground {
                    PoweredFunctionState::Complete(gas_left)
                } else {
                    PoweredFunctionState::Failed(gas_left)
                }
            },
            MinionTreeNode::IsTimid => {
                if thoughts.timid {
                    PoweredFunctionState::Complete(gas_left)
                } else {
                    PoweredFunctionState::Failed(gas_left)
                }
            },
            MinionTreeNode::WaitForGround => {
                if thoughts.on_the_ground {
                    PoweredFunctionState::Complete(gas_left)
                } else {
                    PoweredFunctionState::Waiting(gas_left)
                }
            },
            MinionTreeNode::PlayerVisible => {
                if thoughts.player_at.is_some() {
                    PoweredFunctionState::Complete(gas_left)
                } else {
                    PoweredFunctionState::Failed(gas_left)
                }
            },
            MinionTreeNode::PlayerInRange(half_width, half_height) => {
                match thoughts.get_player_direction() {
                    Some(direction) => {
                        if direction.is_within(*half_width as i64, *half_height as i64) {
                            PoweredFunctionState::Complete(gas_left)
                        } else {
                            PoweredFunctionState::Failed(gas_left)
                        }
                    },
                    None => PoweredFunctionState::Failed(gas_left),
                }
            },
            MinionTreeNode::LungeAtPlayer(speed, rise) => {
                let direction = thoughts.get_player_direction();
                lunge_in(direction, *speed, *rise, gas_left, thoughts)
            },
            MinionTreeNode::LungeAway(speed, rise) => {
                let direction = match thoughts.get_player_direction() {
                    Some(towards) => Some(Offset { x: -towards.x, y: 0 }),
                    None => None,
                };
                lunge_in(direction, *speed, *rise, gas_left, thoughts)
            },
            MinionTreeNode::ShootAtPlayer => {
                match thoughts.get_player_direction() {
                    Some(direction) => {
                        thoughts.shoot_at = Some(direction);
                        PoweredFunctionState::Complete(gas_left)
                    },
                    None => PoweredFunctionState::Failed(gas_left),
                }
            },
            MinionTreeNode::Idle { duration, progress } => {
                let idled: u64 = *progress as u64 + thoughts.frame_time as u64;
                if idled < *duration as u64 {
                    *progress = idled as u32;
                    thoughts.idling = true;
                    PoweredFunctionState::Waiting(gas_left)
                } else {
                    *progress = 0;
                    PoweredFunctionState::Complete(gas_left)
                }
            },
        }
    }

    fn reset(&mut self, thoughts: &mut MinionThoughts) {
        match self {
            MinionTreeNode::Idle { duration, progress } => {
                *progress = 0;
            },
            _ => {},
        }
    }
}

/// Carries out one step of a lunge in `direction`.
fn lunge_in(
    direction: Option<Offset>,
    speed: i32,
    rise: i32,
    gas_left: i32,
    thoughts: &mut MinionThoughts,
) -> (state: PoweredFunctionState)
    ensures
        state == lunge(direction, speed, rise, gas_left, *old(thoughts)).0,
        *final(thoughts) == lunge(direction, speed, rise, gas_left, *old(thoughts)).1,
{
    if thoughts.is_lunging() {
        if thoughts.animation_complete {
            thoughts.lunge_towards = None;
            PoweredFunctionState::Complete(gas_left)
        } else {
            PoweredFunctionState::Waiting(gas_left)
        }
    } else if !thoughts.on_the_ground {
        thoughts.lunge_towards = None;
        PoweredFunctionState::Failed(gas_left)
    } else {
        match direction {
            Some(towards) => {
                thoughts.lunge_towards = Some((towards, speed, rise));
                PoweredFunctionState::Waiting(gas_left)
            },
            None => {
                thoughts.lunge_towards = None;
                PoweredFunctionState::Failed(gas_left)
            },
        }
    }
}

impl MinionTreeNodeDef {
    /// The live leaf that the definition describes, in its clean state.
    pub open spec fn leaf(self) -> MinionTreeNode {
        match self {
            MinionTreeNodeDef::OnTheGround => MinionTreeNode::OnTheGround,
            MinionTreeNodeDef::IsTimid => MinionTreeNode::IsTimid,
            MinionTreeNodeDef::WaitForGround => MinionTreeNode::WaitForGround,
            MinionTreeNodeDef::PlayerVisible => MinionTreeNode::PlayerVisible,
            MinionTreeNodeDef::PlayerInRange(half_width, half_height) => {
                MinionTreeNode::PlayerInRange(half_width, half_height)
            },
            MinionTreeNodeDef::LungeAtPlayer(speed, rise) => MinionTreeNode::LungeAtPlayer(
                speed,
                rise,
            ),
            MinionTreeNodeDef::LungeAway(speed, rise) => MinionTreeNode::LungeAway(speed, rise),
            MinionTreeNodeDef::ShootAtPlayer => MinionTreeNode::ShootAtPlayer,
            MinionTreeNodeDef::Idle(duration) => MinionTreeNode::Idle { duration, progress: 0 },
        }
    }
}

impl UserNodeDefinition for MinionTreeNodeDef {
    type Node = MinionTreeNode;

    open spec fn node(&self) -> MinionTreeNode {
        self.leaf()
    }

    proof fn lemma_new_node_is_clean(&self, world: MinionThoughts) {
    }

    fn create_node(&self) -> (node: MinionTreeNode) {
        match self {
            MinionTreeNodeDef::OnTheGround => MinionTreeNode::OnTheGround,
            MinionTreeNodeDef::IsTimid => MinionTreeNode::IsTimid,
            MinionTreeNodeDef::WaitForGround => MinionTreeNode::WaitForGround,
            MinionTreeNodeDef::PlayerVisible => MinionTreeNode::PlayerVisible,
            MinionTreeNodeDef::PlayerInRange(half_width, half_height) => {
                MinionTreeNode::PlayerInRange(*half_width, *half_height)
            },
            MinionTreeNodeDef::LungeAtPlayer(speed, rise) => MinionTreeNode::LungeAtPlayer(
                *speed,
                *rise,
            ),
            MinionTreeNodeDef::LungeAway(speed, rise) => MinionTreeNode::LungeAway(*speed, *rise),
            MinionTreeNodeDef::ShootAtPlayer => MinionTreeNode::ShootAtPlayer,
            MinionTreeNodeDef::Idle(duration) => MinionTreeNode::Idle {
                duration: *duration,
                progress: 0,
            },
        }
    }
}

impl MinionTreeNode {
    /// Whether the leaf is a condition: it only looks at the blackboard.
    pub open spec fn is_condition(self) -> bool {
        self is OnTheGround || self is IsTimid || self is PlayerVisible || self is PlayerInRange
    }
}

/// A condition settles at once: it completes or fails, never waits, and
/// leaves itself and the blackboard as they were. A reset does nothing to it.
pub proof fn lemma_conditions_settle_at_once(
    node: MinionTreeNode,
    gas_left: i32,
    world: MinionThoughts,
)
    requires
        node.is_condition(),
    ensures
        ({
            let r = MinionTreeNode::resumed(node, gas_left, world);
            &&& r.state == PoweredFunctionState::Complete(gas_left) || r.state
                == PoweredFunctionState::Failed(gas_left)
            &&& r.node == node
            &&& r.world == world
        }),
        MinionTreeNode::reset_of(node, world) == (node, world),
{
}

/// No leaf spends gas, and none but the idle leaf keeps progress: whatever
/// it comes to, the leaf hands back the gas it was given, and any other leaf
/// is afterwards as it was before.
pub proof fn lemma_leaves_hand_the_gas_through(
    node: MinionTreeNode,
    gas_left: i32,
    world: MinionThoughts,
)
    ensures
        MinionTreeNode::resumed(node, gas_left, world).state.gas() == gas_left,
        !(node is Idle) ==> MinionTreeNode::resumed(node, gas_left, world).node == node,
{
}

} // verus!

//! The minions' brain, and what happens around it in the course of a tick.
use crate::ai::lemmas::lemma_def_trees;
use crate::ai::powered::{
    def_tree, def_trees, tree_resumed, CompositeKind, PoweredFunction, PoweredTree,
    PoweredTreeDef, TreeModel,
};
use crate::geometry::{Offset, Vec2};
use crate::minions::behavior_tree::{MinionThoughts, MinionTreeNode, MinionTreeNodeDef};
use crate::minions::MinionBrain;
use vstd::prelude::*;

verus! {

/// The gas that a brain gets for one tick: far more than any tree spends.
pub const GAS_PER_TICK: i32 = 99999;

/// How far the player may be, sideways and in height, for a lunge at once.
pub const LUNGE_RANGE: (u32, u32) = (5000, 1000);

/// The speed and the rise of a minion's lunge.
pub const LUNGE: (i32, i32) = (20000, 10000);

/// How long a minion idles before and after a lunge.
pub const IDLE_TIME: u32 = 1000000;

/// The row of leaves of a sequence.
pub open spec fn leaves(nodes: Seq<MinionTreeNode>) -> Seq<TreeModel<MinionTreeNode>> {
    Seq::new(nodes.len(), |i: int| TreeModel::User(nodes[i]))
}

/// The attack of a minion that finds the player within reach.
pub open spec fn lunge_at_once() -> TreeModel<MinionTreeNode> {
    TreeModel::Composite {
        kind: CompositeKind::Sequence,
        children: leaves(
            seq![
                MinionTreeNode::OnTheGround,
                MinionTreeNode::PlayerVisible,
                MinionTreeNode::PlayerInRange(LUNGE_RANGE.0, LUNGE_RANGE.1),
                MinionTreeNode::LungeAtPlayer(LUNGE.0, LUNGE.1),
                MinionTreeNode::WaitForGround,
                MinionTreeNode::Idle { duration: IDLE_TIME, progress: 0 },
            ],
        ),
        cursor: 0,
    }
}

/// The attack of a minion that sees the player further off.
pub open spec fn lunge_after_a_pause() -> TreeModel<MinionTreeNode> {
    TreeModel::Composite {
        kind: CompositeKind::Sequence,
        children: leaves(
            seq![
                MinionTreeNode::OnTheGround,
                MinionTreeNode::PlayerVisible,
                MinionTreeNode::Idle { duration: IDLE_TIME, progress: 0 },
                MinionTreeNode::LungeAtPlayer(LUNGE.0, LUNGE.1),
                MinionTreeNode::WaitForGround,
                MinionTreeNode::Idle { duration: IDLE_TIME, progress: 0 },
            ],
        ),
        cursor: 0,
    }
}

/// The choice between the two attacks: the first that works out.
pub open spec fn attacks() -> TreeModel<MinionTreeNode> {
    TreeModel::Composite {
        kind: CompositeKind::Selector,
        children: seq![lunge_at_once(), lunge_after_a_pause()],
        cursor: 0,
    }
}

/// A minion's brain as first made: the choice between the two attacks, given
/// up whenever the minion is stunned by a hit.
pub open spec fn new_minion_brain() -> TreeModel<MinionTreeNode> {
    TreeModel::ResetOnInterrupt(Box::new(attacks()))
}

/// The definition of a minion's brain.
pub fn minion_brain_def() -> (def: PoweredTreeDef<MinionTreeNodeDef>)
    ensures
        def.tree() == new_minion_brain(),
{
    let at_once = vec![
        PoweredTreeDef::User(MinionTreeNodeDef::OnTheGround),
        PoweredTreeDef::User(MinionTreeNodeDef::PlayerVisible),
        PoweredTreeDef::User(MinionTreeNodeDef::PlayerInRange(LUNGE_RANGE.0, LUNGE_RANGE.1)),
        PoweredTreeDef::User(MinionTreeNodeDef::LungeAtPlayer(LUNGE.0, LUNGE.1)),
        PoweredTreeDef::User(MinionTreeNodeDef::WaitForGround),
        PoweredTreeDef::User(MinionTreeNodeDef::Idle(IDLE_TIME)),
    ];
    let after_a_pause = vec![
        PoweredTreeDef::User(MinionTreeNodeDef::OnTheGround),
        PoweredTreeDef::User(MinionTreeNodeDef::PlayerVisible),
        PoweredTreeDef::User(MinionTreeNodeDef::Idle(IDLE_TIME)),
        PoweredTreeDef::User(MinionTreeNodeDef::LungeAtPlayer(LUNGE.0, LUNGE.1)),
        PoweredTreeDef::User(MinionTreeNodeDef::WaitForGround),
        PoweredTreeDef::User(MinionTreeNodeDef::Idle(IDLE_TIME)),
    ];
    proof {
        lemma_def_trees(at_once@, 6);
        lemma_def_trees(after_a_pause@, 6);
        assert(def_trees(at_once@, 6) =~= lunge_at_once()->children);
        assert(def_trees(after_a_pause@, 6) =~= lunge_after_a_pause()->children);
        assert(def_tree(PoweredTreeDef::Sequence(at_once)) == lunge_at_once());
        assert(def_tree(PoweredTreeDef::Sequence(after_a_pause)) == lunge_after_a_pause());
    }
    let choice = vec![PoweredTreeDef::Sequence(at_once), PoweredTreeDef::Sequence(after_a_pause)];
    proof {
        lemma_def_trees(choice@, 2);
        assert(def_trees(choice@, 2) =~= seq![lunge_at_once(), lunge_after_a_pause()]);
        assert(def_tree(PoweredTreeDef::Selector(choice)) == attacks());
    }
    PoweredTreeDef::ResetOnInterrupt(Box::new(PoweredTreeDef::Selector(choice)))
}

/// Makes a minion's brain.
pub fn minion_brain() -> (brain: PoweredTree<MinionTreeNode>)
    ensures
        brain@ == new_minion_brain(),
{
    minion_brain_def().create_tree()
}

/// What the host has sensed for a minion at the start of a tick.
#[derive(Debug)]
pub struct MinionSenses {
    pub frame_time: u32,
    pub on_the_ground: bool,
    pub animation: String,
    pub animation_complete: bool,
    /// Where the minion is and, if it sees the player, where the player is;
    /// `None` if the minion has no place in the world.
    pub position: Option<(Vec2, Option<Vec2>)>,
}

/// Brings a minion's blackboard up to date before its brain runs: the senses
/// are taken over, the player is forgotten unless seen again, and the wish to
/// idle is dropped. The other intents stay, and so do `hit_stun` and `timid`,
/// which the host sets when it sees fit.
pub fn minion_thought_update_system(thoughts: &mut MinionThoughts, senses: MinionSenses)
    ensures
        final(thoughts).frame_time == senses.frame_time,
        final(thoughts).on_the_ground == senses.on_the_ground,
        final(thoughts).animation == senses.animation,
        final(thoughts).animation_complete == senses.animation_complete,
        final(thoughts).timid == old(thoughts).timid,
        final(thoughts).hit_stun == old(thoughts).hit_stun,
        !final(thoughts).idling,
        final(thoughts).self_at == match senses.position {
            Some((self_at, _)) => self_at,
            None => old(thoughts).self_at,
        },
        final(thoughts).player_at == match senses.position {
            Some((_, player_at)) => player_at,
            None => None,
        },
        final(thoughts).lunge_towards == old(thoughts).lunge_towards,
        final(thoughts).shoot_at == old(thoughts).shoot_at,
{
    thoughts.frame_time = senses.frame_time;
    thoughts.player_at = None;
    thoughts.idling = false;
    thoughts.on_the_ground = senses.on_the_ground;
    thoughts.animation = senses.animation;
    thoughts.animation_complete = senses.animation_complete;
    match senses.position {
        Some((self_at, player_at)) => {
            thoughts.self_at = self_at;
            thoughts.player_at = player_at;
        },
        None => {},
    }
}

/// Lets a minion's brain run for one tick. The outcome is of no account: a
/// tree that has ended starts again from the top on the next tick.
pub fn minion_brain_system(brain: &mut MinionBrain, thoughts: &mut MinionThoughts)
    ensures
        final(brain).0@ == tree_resumed::<MinionTreeNode>(
            old(brain).0@,
            GAS_PER_TICK,
            *old(thoughts),
        ).node,
        *final(thoughts) == tree_resumed::<MinionTreeNode>(
            old(brain).0@,
            GAS_PER_TICK,
            *old(thoughts),
        ).world,
{
    let _ = brain.0.resume_with(GAS_PER_TICK, thoughts);
}

/// What a minion does after its brain has run.
#[derive(Clone, Copy, Debug, PartialEq, Eq, Structural)]
pub enum MinionImpulse {
    /// Nothing new.
    Rest,
    /// Play the idle animation.
    Idle,
    /// Lunge in this direction, with this speed and rise; `flip_x` says
    /// whether the minion has to face left for it.
    Lunge { direction: Offset, speed: i32, rise: i32, flip_x: bool },
}

/// What `thoughts` ask of the minion: idling comes before a lunge.
pub open spec fn impulse_of(thoughts: MinionThoughts) -> MinionImpulse {
    if thoughts.idling {
        MinionImpulse::Idle
    } else {
        match thoughts.lunge_towards {
            Some((direction, speed, rise)) => MinionImpulse::Lunge {
                direction,
                speed,
                rise,
                flip_x: direction.x < 0,
            },
            None => MinionImpulse::Rest,
        }
    }
}

/// Reads off a minion's blackboard what the minion does next.
pub fn minion_impulse_system(thoughts: &MinionThoughts) -> (impulse: MinionImpulse)
    ensures
        impulse == impulse_of(*thoughts),
{
    if thoughts.idling {
        MinionImpulse::Idle
    } else {
        match thoughts.lunge_towards {
            Some((direction, speed, rise)) => MinionImpulse::Lunge {
                direction,
                speed,
                rise,
                flip_x: direction.x < 0,
            },
            None => MinionImpulse::Rest,
        }
    }
}

} // verus!

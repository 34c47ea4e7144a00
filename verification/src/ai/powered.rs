//! Resumable trees of powered functions.
//!
//! A tree is evaluated once per tick with a budget of gas. It suspends when a
//! node is not yet satisfied and picks up at the same node on the next tick.
//! A composite pays one unit of gas for each child it visits; leaves and the
//! interrupt wrapper hand the gas through. What a node hands back lies
//! between nothing and what it was given.
use crate::ai::lemmas::{lemma_composite_view, lemma_run_step, lemma_tree_within_budget};
use vstd::prelude::*;

verus! {

/// What one evaluation step came to, with the gas that is left.
#[derive(Clone, Copy, Debug, PartialEq, Eq, Structural)]
pub enum PoweredFunctionState {
    /// The node is satisfied for this activation.
    Complete(i32),
    /// The node did not succeed and will not during this activation.
    Failed(i32),
    /// Not settled yet: resume on a later tick.
    Waiting(i32),
}

impl PoweredFunctionState {
    /// The gas carried by the outcome.
    pub open spec fn gas(self) -> i32 {
        match self {
            PoweredFunctionState::Complete(g) => g,
            PoweredFunctionState::Failed(g) => g,
            PoweredFunctionState::Waiting(g) => g,
        }
    }

    /// The gas carried by the outcome.
    pub fn gas_left(&self) -> (gas: i32)
        ensures
            gas == self.gas(),
    {
        match self {
            PoweredFunctionState::Complete(g) => *g,
            PoweredFunctionState::Failed(g) => *g,
            PoweredFunctionState::Waiting(g) => *g,
        }
    }

    /// Whether the outcome ends the activation (`Complete` or `Failed`).
    pub open spec fn is_terminal(self) -> bool {
        !(self is Waiting)
    }

    /// Whether the outcome ends the activation (`Complete` or `Failed`).
    pub fn terminal(&self) -> (b: bool)
        ensures
            b == self.is_terminal(),
    {
        match self {
            PoweredFunctionState::Waiting(_) => false,
            _ => true,
        }
    }
}

/// A blackboard that can carry an interrupt signal for the tree reading it.
pub trait Interruptible {
    /// Whether the interrupt signal is raised.
    spec fn interrupted(&self) -> bool;

    /// Whether the interrupt signal is raised.
    fn is_interrupted(&self) -> (b: bool)
        ensures
            b == self.interrupted(),
    ;
}

/// The outcome of resuming a node, with the node and the world as they are afterwards.
pub struct Resumed<N, W> {
    pub state: PoweredFunctionState,
    pub node: N,
    pub world: W,
}

/// The contract of every node, leaf or composite.
pub trait PoweredFunction: View + Sized {
    /// The blackboard that the node reads and writes.
    type World: Interruptible;

    /// What resuming `node` with `gas_left` on `world` comes to.
    spec fn resumed(node: Self::V, gas_left: i32, world: Self::World) -> Resumed<
        Self::V,
        Self::World,
    >;

    /// The node and the world after a reset.
    spec fn reset_of(node: Self::V, world: Self::World) -> (Self::V, Self::World);

    /// No node hands back more gas than it was given, and none hands back
    /// less than none if it was given any.
    proof fn lemma_resumed_within_budget(node: Self::V, gas_left: i32, world: Self::World)
        ensures
            Self::resumed(node, gas_left, world).state.gas() <= gas_left,
            gas_left >= 0 ==> Self::resumed(node, gas_left, world).state.gas() >= 0,
    ;

    /// Runs the node for one tick, from where it last stopped.
    fn resume_with(&mut self, gas_left: i32, world: &mut Self::World) -> (state:
        PoweredFunctionState)
        ensures
            state == Self::resumed(old(self)@, gas_left, *old(world)).state,
            final(self)@ == Self::resumed(old(self)@, gas_left, *old(world)).node,
            *final(world) == Self::resumed(old(self)@, gas_left, *old(world)).world,
            state.gas() <= gas_left,
            gas_left >= 0 ==> state.gas() >= 0,
    ;

    /// Puts the node back into its clean state.
    fn reset(&mut self, world: &mut Self::World)
        ensures
            final(self)@ == Self::reset_of(old(self)@, *old(world)).0,
            *final(world) == Self::reset_of(old(self)@, *old(world)).1,
    ;
}

/// The two ordered composites.
#[derive(Clone, Copy, Debug, PartialEq, Eq, Structural)]
pub enum CompositeKind {
    /// Every child has to complete, in order.
    Sequence,
    /// The first child that completes wins.
    Selector,
}

impl CompositeKind {
    /// Whether a child's outcome moves the cursor on to the next child.
    pub open spec fn advances_on(self, state: PoweredFunctionState) -> bool {
        match self {
            CompositeKind::Sequence => state is Complete,
            CompositeKind::Selector => state is Failed,
        }
    }

    /// The outcome once the cursor has passed the last child.
    pub open spec fn verdict(self, gas: i32) -> PoweredFunctionState {
        match self {
            CompositeKind::Sequence => PoweredFunctionState::Complete(gas),
            CompositeKind::Selector => PoweredFunctionState::Failed(gas),
        }
    }

    /// Whether a child's outcome moves the cursor on to the next child.
    pub fn moves_on(&self, state: &PoweredFunctionState) -> (b: bool)
        ensures
            b == self.advances_on(*state),
    {
        match (self, state) {
            (CompositeKind::Sequence, PoweredFunctionState::Complete(_)) => true,
            (CompositeKind::Selector, PoweredFunctionState::Failed(_)) => true,
            _ => false,
        }
    }

    /// The outcome once the cursor has passed the last child.
    pub fn finished(&self, gas: i32) -> (state: PoweredFunctionState)
        ensures
            state == self.verdict(gas),
    {
        match self {
            CompositeKind::Sequence => PoweredFunctionState::Complete(gas),
            CompositeKind::Selector => PoweredFunctionState::Failed(gas),
        }
    }
}

/// The mathematical model of a live tree over leaves of type `L`.
pub enum TreeModel<L> {
    /// A leaf of the vocabulary.
    User(L),
    /// A sequence or a selector: its children and the index of the child to visit next.
    Composite { kind: CompositeKind, children: Seq<TreeModel<L>>, cursor: nat },
    /// A subtree that is reset whenever the blackboard raises its interrupt.
    ResetOnInterrupt(Box<TreeModel<L>>),
}

impl<L> TreeModel<L> {
    /// Whether every cursor of the tree points at a child, or at 0 where
    /// there is none.
    pub open spec fn well_formed(self) -> bool
        decreases self,
    {
        match self {
            TreeModel::User(_) => true,
            TreeModel::Composite { kind, children, cursor } => {
                &&& cursor < children.len() || cursor == 0
                &&& forall|i: int|
                    0 <= i < children.len() ==> (#[trigger] children[i]).well_formed()
            },
            TreeModel::ResetOnInterrupt(child) => child.well_formed(),
        }
    }
}

/// What a run over the children of a composite comes to.
pub struct Ran<L, W> {
    pub state: PoweredFunctionState,
    pub children: Seq<TreeModel<L>>,
    pub cursor: nat,
    pub world: W,
}

/// The tree and the world after a reset: the cursor goes back to 0 and only
/// the child under the cursor is reset in turn.
pub open spec fn tree_reset<N: PoweredFunction>(tree: TreeModel<N::V>, world: N::World) -> (
    TreeModel<N::V>,
    N::World,
)
    decreases tree,
{
    match tree {
        TreeModel::User(node) => {
            let (node, world) = N::reset_of(node, world);
            (TreeModel::User(node), world)
        },
        TreeModel::Composite { kind, children, cursor } => {
            if cursor < children.len() {
                let (child, world) = tree_reset::<N>(children[cursor as int], world);
                (
                    TreeModel::Composite {
                        kind,
                        children: children.update(cursor as int, child),
                        cursor: 0,
                    },
                    world,
                )
            } else {
                (TreeModel::Composite { kind, children, cursor: 0 }, world)
            }
        },
        TreeModel::ResetOnInterrupt(child) => {
            let (child, world) = tree_reset::<N>(*child, world);
            (TreeModel::ResetOnInterrupt(Box::new(child)), world)
        },
    }
}

/// What resuming `tree` with `gas_left` on `world` comes to.
pub open spec fn tree_resumed<N: PoweredFunction>(
    tree: TreeModel<N::V>,
    gas_left: i32,
    world: N::World,
) -> Resumed<TreeModel<N::V>, N::World>
    decreases tree, 0nat,
{
    match tree {
        TreeModel::User(node) => {
            let r = N::resumed(node, gas_left, world);
            Resumed { state: r.state, node: TreeModel::User(r.node), world: r.world }
        },
        TreeModel::Composite { kind, children, cursor } => {
            let r = children_run::<N>(kind, children, cursor, gas_left, world);
            Resumed {
                state: r.state,
                node: TreeModel::Composite { kind, children: r.children, cursor: r.cursor },
                world: r.world,
            }
        },
        TreeModel::ResetOnInterrupt(child) => {
            if world.interrupted() {
                let (child, world) = tree_reset::<N>(*child, world);
                Resumed {
                    state: PoweredFunctionState::Complete(gas_left),
                    node: TreeModel::ResetOnInterrupt(Box::new(child)),
                    world,
                }
            } else {
                let r = tree_resumed::<N>(*child, gas_left, world);
                Resumed {
                    state: r.state,
                    node: TreeModel::ResetOnInterrupt(Box::new(r.node)),
                    world: r.world,
                }
            }
        },
    }
}

/// The run of a composite over `children`, starting with the child at `cursor`.
///
/// With no gas the run waits where it is. Each visit costs one unit. An outcome
/// that moves the cursor on lets the run go on with the next child, and ends it
/// with the composite's verdict after the last one; any other terminal outcome
/// ends the run and puts the cursor back to 0; `Waiting` leaves it in place.
pub open spec fn children_run<N: PoweredFunction>(
    kind: CompositeKind,
    children: Seq<TreeModel<N::V>>,
    cursor: nat,
    gas_left: i32,
    world: N::World,
) -> Ran<N::V, N::World>
    decreases children, children.len() - cursor,
{
    if gas_left <= 0 {
        Ran { state: PoweredFunctionState::Waiting(gas_left), children, cursor, world }
    } else if cursor >= children.len() {
        Ran { state: kind.verdict(gas_left), children, cursor: 0, world }
    } else {
        let r = tree_resumed::<N>(children[cursor as int], (gas_left - 1) as i32, world);
        if r.state is Waiting {
            Ran {
                state: r.state,
                children: children.update(cursor as int, r.node),
                cursor,
                world: r.world,
            }
        } else if !kind.advances_on(r.state) {
            Ran {
                state: r.state,
                children: children.update(cursor as int, r.node),
                cursor: 0,
                world: r.world,
            }
        } else if cursor + 1 >= children.len() {
            Ran {
                state: kind.verdict(r.state.gas()),
                children: children.update(cursor as int, r.node),
                cursor: 0,
                world: r.world,
            }
        } else {
            let rest = children_run::<N>(kind, children, cursor + 1, r.state.gas(), r.world);
            Ran {
                state: rest.state,
                children: rest.children.update(cursor as int, r.node),
                cursor: rest.cursor,
                world: rest.world,
            }
        }
    }
}

/// A live tree: the nodes with the progress that each has made.
#[derive(Debug, PartialEq, Eq)]
pub enum PoweredTree<N> {
    /// A leaf of the vocabulary.
    User(N),
    /// A sequence or a selector: its children and the index of the child to visit next.
    Composite { kind: CompositeKind, children: Vec<PoweredTree<N>>, cursor: usize },
    /// A subtree that is reset whenever the blackboard raises its interrupt.
    ResetOnInterrupt(Box<PoweredTree<N>>),
}

impl<N: View> View for PoweredTree<N> {
    type V = TreeModel<N::V>;

    open spec fn view(&self) -> TreeModel<N::V> {
        tree_model(*self)
    }
}

/// The model of a live tree.
pub open spec fn tree_model<N: View>(tree: PoweredTree<N>) -> TreeModel<N::V>
    decreases tree, 0nat,
{
    match tree {
        PoweredTree::User(node) => TreeModel::User(node@),
        PoweredTree::Composite { kind, children, cursor } => TreeModel::Composite {
            kind,
            children: tree_models(children@, children@.len()),
            cursor: cursor as nat,
        },
        PoweredTree::ResetOnInterrupt(child) => TreeModel::ResetOnInterrupt(
            Box::new(tree_model(*child)),
        ),
    }
}

/// The models of the first `n` trees of a row.
pub open spec fn tree_models<N: View>(trees: Seq<PoweredTree<N>>, n: nat) -> Seq<
    TreeModel<N::V>,
>
    decreases trees, n,
{
    if n == 0 || n > trees.len() {
        Seq::empty()
    } else {
        tree_models(trees, (n - 1) as nat).push(tree_model(trees[n - 1]))
    }
}

/// The models of a row of live trees.
pub open spec fn tree_views<N: View>(trees: Seq<PoweredTree<N>>) -> Seq<TreeModel<N::V>> {
    Seq::new(trees.len(), |i: int| trees[i]@)
}

/// Puts `tree` back into its clean state.
fn reset_tree<N: PoweredFunction>(tree: &mut PoweredTree<N>, world: &mut N::World)
    ensures
        final(tree)@ == tree_reset::<N>(old(tree)@, *old(world)).0,
        *final(world) == tree_reset::<N>(old(tree)@, *old(world)).1,
    decreases *old(tree),
{
    match tree {
        PoweredTree::User(node) => {
            node.reset(world);
        },
        PoweredTree::Composite { kind, children, cursor } => {
            proof {
                lemma_composite_view(*kind, *children, *cursor);
            }
            let ghost before = children@;
            if *cursor < children.len() {
                reset_tree(&mut children[*cursor], world);
                assert(tree_views(children@) =~= tree_views(before).update(
                    *cursor as int,
                    children@[*cursor as int]@,
                ));
            }
            *cursor = 0;
            proof {
                lemma_composite_view(*kind, *children, *cursor);
            }
        },
        PoweredTree::ResetOnInterrupt(child) => {
            reset_tree(&mut **child, world);
        },
    }
}

/// Runs `tree` for one tick, from where it last stopped.
fn resume_tree<N: PoweredFunction>(
    tree: &mut PoweredTree<N>,
    gas_left: i32,
    world: &mut N::World,
) -> (state: PoweredFunctionState)
    ensures
        state == tree_resumed::<N>(old(tree)@, gas_left, *old(world)).state,
        final(tree)@ == tree_resumed::<N>(old(tree)@, gas_left, *old(world)).node,
        *final(world) == tree_resumed::<N>(old(tree)@, gas_left, *old(world)).world,
    decreases *old(tree), 0nat,
{
    match tree {
        PoweredTree::User(node) => node.resume_with(gas_left, world),
        PoweredTree::Composite { kind, children, cursor } => {
            proof {
                lemma_composite_view(*kind, *children, *cursor);
            }
            let state = run_children(*kind, children, cursor, gas_left, world);
            proof {
                lemma_composite_view(*kind, *children, *cursor);
            }
            state
        },
        PoweredTree::ResetOnInterrupt(child) => {
            if world.is_interrupted() {
                reset_tree(&mut **child, world);
                PoweredFunctionState::Complete(gas_left)
            } else {
                resume_tree(&mut **child, gas_left, world)
            }
        },
    }
}

/// Runs a composite over its children, starting with the child under the cursor.
fn run_children<N: PoweredFunction>(
    kind: CompositeKind,
    children: &mut Vec<PoweredTree<N>>,
    cursor: &mut usize,
    gas_left: i32,
    world: &mut N::World,
) -> (state: PoweredFunctionState)
    ensures
        ({
            let r = children_run::<N>(
                kind,
                tree_views(old(children)@),
                *old(cursor) as nat,
                gas_left,
                *old(world),
            );
            &&& state == r.state
            &&& tree_views(final(children)@) == r.children
            &&& *final(cursor) == r.cursor
            &&& *final(world) == r.world
        }),
    decreases *old(children), 1nat,
{
    let mut gas: i32 = gas_left;
    let ghost goal = children_run::<N>(
        kind,
        tree_views(old(children)@),
        *old(cursor) as nat,
        gas_left,
        *old(world),
    );
    if gas <= 0 {
        return PoweredFunctionState::Waiting(gas);
    }
    if *cursor >= children.len() {
        *cursor = 0;
        return kind.finished(gas);
    }
    loop
        invariant
            gas > 0,
            *cursor < children.len(),
            children.len() == old(children).len(),
            forall|i: int| *cursor <= i < children.len() ==> children@[i] == old(children)@[i],
            goal == children_run::<N>(
                kind,
                tree_views(old(children)@),
                *old(cursor) as nat,
                gas_left,
                *old(world),
            ),
            goal == children_run::<N>(kind, tree_views(children@), *cursor as nat, gas, *world),
        decreases children.len() - *cursor,
    {
        let ghost before = children@;
        let ghost world_before = *world;
        let ghost at = *cursor as int;
        let state = resume_tree(&mut children[*cursor], gas - 1, world);
        assert(tree_views(children@) =~= tree_views(before).update(at, children@[at]@));
        if !state.terminal() {
            return state;
        }
        if !kind.moves_on(&state) {
            *cursor = 0;
            return state;
        }
        if *cursor + 1 >= children.len() {
            *cursor = 0;
            return kind.finished(state.gas_left());
        }
        proof {
            lemma_run_step::<N>(kind, tree_views(before), at as nat, gas, world_before);
            lemma_tree_within_budget::<N>(before[at]@, (gas - 1) as i32, world_before);
        }
        *cursor = *cursor + 1;
        gas = state.gas_left();
        if gas <= 0 {
            return PoweredFunctionState::Waiting(gas);
        }
    }
}

impl<N: PoweredFunction> PoweredFunction for PoweredTree<N> {
    type World = N::World;

    open spec fn resumed(node: TreeModel<N::V>, gas_left: i32, world: N::World) -> Resumed<
        TreeModel<N::V>,
        N::World,
    > {
        tree_resumed::<N>(node, gas_left, world)
    }

    open spec fn reset_of(node: TreeModel<N::V>, world: N::World) -> (TreeModel<N::V>, N::World) {
        tree_reset::<N>(node, world)
    }

    proof fn lemma_resumed_within_budget(node: TreeModel<N::V>, gas_left: i32, world: N::World) {
        lemma_tree_within_budget::<N>(node, gas_left, world);
    }

    fn resume_with(&mut self, gas_left: i32, world: &mut N::World) -> (state:
        PoweredFunctionState) {
        proof {
            lemma_tree_within_budget::<N>(self@, gas_left, *world);
        }
        resume_tree(self, gas_left, world)
    }

    fn reset(&mut self, world: &mut N::World) {
        reset_tree(self, world)
    }
}

/// A leaf of a tree definition: it says which node to make.
pub trait UserNodeDefinition: Sized {
    /// The live node that the definition stands for.
    type Node: PoweredFunction;

    /// The node that the definition describes, in its clean state.
    spec fn node(&self) -> <Self::Node as View>::V;

    /// A node as first made is clean: resetting it changes nothing.
    proof fn lemma_new_node_is_clean(&self, world: <Self::Node as PoweredFunction>::World)
        ensures
            Self::Node::reset_of(self.node(), world) == (self.node(), world),
    ;

    /// Makes the node that the definition describes.
    fn create_node(&self) -> (node: Self::Node)
        ensures
            node@ == self.node(),
    ;
}

/// The blueprint of a tree: what it is made of, before any progress exists.
#[derive(Debug, PartialEq, Eq)]
pub enum PoweredTreeDef<T> {
    /// A leaf of the vocabulary.
    User(T),
    /// Children that all have to complete, in order.
    Sequence(Vec<PoweredTreeDef<T>>),
    /// Children of which the first to complete wins.
    Selector(Vec<PoweredTreeDef<T>>),
    /// A subtree that is reset whenever the blackboard raises its interrupt.
    ResetOnInterrupt(Box<PoweredTreeDef<T>>),
}

/// The tree that a definition describes: every cursor at 0, every leaf clean.
pub open spec fn def_tree<T: UserNodeDefinition>(def: PoweredTreeDef<T>) -> TreeModel<
    <T::Node as View>::V,
>
    decreases def, 0nat,
{
    match def {
        PoweredTreeDef::User(leaf) => TreeModel::User(leaf.node()),
        PoweredTreeDef::Sequence(children) => TreeModel::Composite {
            kind: CompositeKind::Sequence,
            children: def_trees(children@, children@.len()),
            cursor: 0,
        },
        PoweredTreeDef::Selector(children) => TreeModel::Composite {
            kind: CompositeKind::Selector,
            children: def_trees(children@, children@.len()),
            cursor: 0,
        },
        PoweredTreeDef::ResetOnInterrupt(child) => TreeModel::ResetOnInterrupt(
            Box::new(def_tree(*child)),
        ),
    }
}

/// The trees that the first `n` definitions of a row describe.
pub open spec fn def_trees<T: UserNodeDefinition>(defs: Seq<PoweredTreeDef<T>>, n: nat) -> Seq<
    TreeModel<<T::Node as View>::V>,
>
    decreases defs, n,
{
    if n == 0 || n > defs.len() {
        Seq::empty()
    } else {
        def_trees(defs, (n - 1) as nat).push(def_tree(defs[n - 1]))
    }
}

impl<T: UserNodeDefinition> PoweredTreeDef<T> {
    /// The tree that the definition describes.
    pub open spec fn tree(&self) -> TreeModel<<T::Node as View>::V> {
        def_tree(*self)
    }

    /// Makes a live tree of the definition. Each call makes a tree of its own.
    pub fn create_tree(&self) -> (tree: PoweredTree<T::Node>)
        ensures
            tree@ == self.tree(),
        decreases self,
    {
        match self {
            PoweredTreeDef::User(leaf) => PoweredTree::User(leaf.create_node()),
            PoweredTreeDef::Sequence(defs) => {
                let children = create_trees(defs);
                proof {
                    lemma_composite_view(CompositeKind::Sequence, children, 0);
                }
                PoweredTree::Composite { kind: CompositeKind::Sequence, children, cursor: 0 }
            },
            PoweredTreeDef::Selector(defs) => {
                let children = create_trees(defs);
                proof {
                    lemma_composite_view(CompositeKind::Selector, children, 0);
                }
                PoweredTree::Composite { kind: CompositeKind::Selector, children, cursor: 0 }
            },
            PoweredTreeDef::ResetOnInterrupt(child) => PoweredTree::ResetOnInterrupt(
                Box::new(child.create_tree()),
            ),
        }
    }
}

/// Makes the live trees of a row of definitions.
fn create_trees<T: UserNodeDefinition>(defs: &Vec<PoweredTreeDef<T>>) -> (trees: Vec<
    PoweredTree<T::Node>,
>)
    ensures
        tree_views(trees@) == def_trees(defs@, defs@.len()),
    decreases defs,
{
    let mut trees: Vec<PoweredTree<T::Node>> = Vec::new();
    let mut i: usize = 0;
    while i < defs.len()
        invariant
            i <= defs.len(),
            trees@.len() == i,
            tree_views(trees@) == def_trees(defs@, i as nat),
        decreases defs.len() - i,
    {
        let tree = defs[i].create_tree();
        let ghost before = trees@;
        trees.push(tree);
        assert(tree_views(trees@) =~= tree_views(before).push(tree@));
        i = i + 1;
    }
    trees
}

} // verus!

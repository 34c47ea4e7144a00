//! What holds of every tree, whatever its leaves.
use crate::ai::lemmas::{lemma_def_trees, lemma_run_starts_at_cursor, lemma_tree_within_budget};
use crate::ai::powered::{
    children_run, def_tree, def_trees, tree_reset, tree_resumed, CompositeKind, Interruptible,
    PoweredFunction, PoweredFunctionState, PoweredTreeDef, Resumed, TreeModel, UserNodeDefinition,
};
use vstd::prelude::*;

verus! {

/// What a run has left when it comes to child `k`, having begun at
/// `cursor`: the gas and the world as the children in between leave them.
pub struct Arrival<W> {
    pub gas: i32,
    pub world: W,
}

/// Whether the children from `cursor` up to `k`, each resumed in its turn,
/// move a composite of `kind` on, with gas left for every visit.
pub open spec fn passes_through<N: PoweredFunction>(
    kind: CompositeKind,
    children: Seq<TreeModel<N::V>>,
    cursor: nat,
    k: nat,
    gas_left: i32,
    world: N::World,
) -> bool
    decreases k - cursor,
{
    if cursor >= k {
        true
    } else {
        let r = tree_resumed::<N>(children[cursor as int], (gas_left - 1) as i32, world);
        &&& gas_left > 0
        &&& kind.advances_on(r.state)
        &&& passes_through::<N>(kind, children, cursor + 1, k, r.state.gas(), r.world)
    }
}

/// The gas and the world with which a run that began at `cursor` comes to child `k`.
pub open spec fn arrival<N: PoweredFunction>(
    children: Seq<TreeModel<N::V>>,
    cursor: nat,
    k: nat,
    gas_left: i32,
    world: N::World,
) -> Arrival<N::World>
    decreases k - cursor,
{
    if cursor >= k {
        Arrival { gas: gas_left, world }
    } else {
        let r = tree_resumed::<N>(children[cursor as int], (gas_left - 1) as i32, world);
        arrival::<N>(children, cursor + 1, k, r.state.gas(), r.world)
    }
}

/// Whether `tree`, resumed on `world`, hands back the outcome that moves a
/// composite of `kind` on, with all the gas it was given and `world` as it was.
pub open spec fn passes_freely<N: PoweredFunction>(
    kind: CompositeKind,
    tree: TreeModel<N::V>,
    world: N::World,
) -> bool {
    forall|gas: i32|
        {
            let r = #[trigger] tree_resumed::<N>(tree, gas, world);
            r.state == kind.verdict(gas) && r.world == world
        }
}

/// Children that pass freely on `world` are passed through at one unit of
/// gas each, and leave `world` as it is.
pub proof fn lemma_free_passage<N: PoweredFunction>(
    kind: CompositeKind,
    children: Seq<TreeModel<N::V>>,
    cursor: nat,
    k: nat,
    gas_left: i32,
    world: N::World,
)
    requires
        cursor <= k <= children.len(),
        gas_left >= k - cursor,
        forall|i: int| cursor <= i < k ==> passes_freely::<N>(kind, #[trigger] children[i], world),
    ensures
        passes_through::<N>(kind, children, cursor, k, gas_left, world),
        arrival::<N>(children, cursor, k, gas_left, world) == (Arrival {
            gas: (gas_left - (k - cursor)) as i32,
            world,
        }),
    decreases k - cursor,
{
    if cursor < k {
        let r = tree_resumed::<N>(children[cursor as int], (gas_left - 1) as i32, world);
        assert(passes_freely::<N>(kind, children[cursor as int], world));
        assert(r.state == kind.verdict((gas_left - 1) as i32) && r.world == world);
        lemma_free_passage::<N>(kind, children, cursor + 1, k, (gas_left - 1) as i32, world);
    }
}

/// A run that passes through its children up to `k`, and whose child `k`
/// does not move it on, ends at child `k` with that child's outcome: the
/// cursor stays at `k` if the child waits and goes back to 0 if not. No child
/// after `k` is looked at: the run hands them back as they were, and a row
/// `b` that differs from `a` only after `k` runs to the same end.
pub proof fn lemma_run_ends_at<N: PoweredFunction>(
    kind: CompositeKind,
    a: Seq<TreeModel<N::V>>,
    b: Seq<TreeModel<N::V>>,
    cursor: nat,
    k: nat,
    gas_left: i32,
    world: N::World,
)
    requires
        cursor <= k < a.len(),
        k < b.len(),
        forall|i: int| cursor <= i <= k ==> a[i] == b[i],
        passes_through::<N>(kind, a, cursor, k, gas_left, world),
        arrival::<N>(a, cursor, k, gas_left, world).gas > 0,
        ({
            let at = arrival::<N>(a, cursor, k, gas_left, world);
            !kind.advances_on(tree_resumed::<N>(a[k as int], (at.gas - 1) as i32, at.world).state)
        }),
    ensures
        ({
            let at = arrival::<N>(a, cursor, k, gas_left, world);
            let at_k = tree_resumed::<N>(a[k as int], (at.gas - 1) as i32, at.world);
            let ra = children_run::<N>(kind, a, cursor, gas_left, world);
            let rb = children_run::<N>(kind, b, cursor, gas_left, world);
            &&& ra.state == at_k.state
            &&& ra.world == at_k.world
            &&& ra.cursor == if at_k.state is Waiting {
                k
            } else {
                0
            }
            &&& ra.children.len() == a.len()
            &&& ra.children[k as int] == at_k.node
            &&& forall|j: int| k < j < a.len() ==> #[trigger] ra.children[j] == a[j]
            &&& rb.state == ra.state
            &&& rb.world == ra.world
            &&& rb.cursor == ra.cursor
        }),
    decreases k - cursor,
{
    if cursor < k {
        let r = tree_resumed::<N>(a[cursor as int], (gas_left - 1) as i32, world);
        lemma_run_ends_at::<N>(kind, a, b, cursor + 1, k, r.state.gas(), r.world);
    }
}

/// A run that passes through all its children from the cursor on comes to
/// the composite's verdict, with the gas and the world that the last child
/// leaves, and with its cursor at 0.
pub proof fn lemma_run_to_the_end<N: PoweredFunction>(
    kind: CompositeKind,
    children: Seq<TreeModel<N::V>>,
    cursor: nat,
    gas_left: i32,
    world: N::World,
)
    requires
        cursor <= children.len(),
        gas_left > 0,
        passes_through::<N>(kind, children, cursor, children.len(), gas_left, world),
    ensures
        ({
            let at = arrival::<N>(children, cursor, children.len(), gas_left, world);
            let r = children_run::<N>(kind, children, cursor, gas_left, world);
            &&& r.state == kind.verdict(at.gas)
            &&& r.world == at.world
            &&& r.cursor == 0
        }),
    decreases children.len() - cursor,
{
    if cursor < children.len() {
        let r = tree_resumed::<N>(children[cursor as int], (gas_left - 1) as i32, world);
        if cursor + 1 < children.len() {
            assert(passes_through::<N>(
                kind,
                children,
                cursor + 1,
                children.len(),
                r.state.gas(),
                r.world,
            ));
            assert(r.state.gas() > 0) by {
                reveal_with_fuel(passes_through, 2);
            }
            lemma_run_to_the_end::<N>(kind, children, cursor + 1, r.state.gas(), r.world);
        }
    }
}

/// A sequence whose children from the cursor on each complete when their
/// turn comes, with gas left for every visit, completes in one call. It hands
/// back the gas and the world that its last child leaves, and its cursor is
/// at 0 again.
pub proof fn lemma_sequence_completes<N: PoweredFunction>(
    children: Seq<TreeModel<N::V>>,
    cursor: nat,
    gas_left: i32,
    world: N::World,
)
    requires
        cursor <= children.len(),
        gas_left > 0,
        passes_through::<N>(
            CompositeKind::Sequence,
            children,
            cursor,
            children.len(),
            gas_left,
            world,
        ),
    ensures
        ({
            let at = arrival::<N>(children, cursor, children.len(), gas_left, world);
            let sequence = TreeModel::Composite {
                kind: CompositeKind::Sequence,
                children,
                cursor,
            };
            let r = tree_resumed::<N>(sequence, gas_left, world);
            &&& r.state == PoweredFunctionState::Complete(at.gas)
            &&& r.world == at.world
            &&& r.node is Composite
            &&& r.node->cursor == 0
        }),
{
    lemma_run_to_the_end::<N>(CompositeKind::Sequence, children, cursor, gas_left, world);
}

/// A sequence of `n` children that all complete freely on `world`
/// completes in one call with `n` units of gas or more: it hands back the
/// rest of the gas, leaves `world` as it is, and has its cursor at 0 again.
pub proof fn lemma_sequence_of_ready_children_completes<N: PoweredFunction>(
    children: Seq<TreeModel<N::V>>,
    gas_left: i32,
    world: N::World,
)
    requires
        gas_left > 0,
        gas_left >= children.len(),
        forall|i: int|
            0 <= i < children.len() ==> passes_freely::<N>(
                CompositeKind::Sequence,
                #[trigger] children[i],
                world,
            ),
    ensures
        ({
            let sequence = TreeModel::Composite {
                kind: CompositeKind::Sequence,
                children,
                cursor: 0,
            };
            let r = tree_resumed::<N>(sequence, gas_left, world);
            &&& r.state == PoweredFunctionState::Complete((gas_left - children.len()) as i32)
            &&& r.world == world
            &&& r.node is Composite
            &&& r.node->cursor == 0
        }),
{
    lemma_free_passage::<N>(
        CompositeKind::Sequence,
        children,
        0,
        children.len(),
        gas_left,
        world,
    );
    lemma_run_to_the_end::<N>(CompositeKind::Sequence, children, 0, gas_left, world);
}

/// A sequence that passes through its children up to `k` and whose child
/// `k` waits, waits as a whole, with child `k`'s outcome and its cursor at
/// `k`. Resumed again it starts with child `k`, and the children before `k`
/// have no part in that call: see `lemma_resume_starts_at_cursor`.
pub proof fn lemma_sequence_waits_at_child<N: PoweredFunction>(
    children: Seq<TreeModel<N::V>>,
    cursor: nat,
    k: nat,
    gas_left: i32,
    world: N::World,
)
    requires
        cursor <= k < children.len(),
        passes_through::<N>(CompositeKind::Sequence, children, cursor, k, gas_left, world),
        arrival::<N>(children, cursor, k, gas_left, world).gas > 0,
        ({
            let at = arrival::<N>(children, cursor, k, gas_left, world);
            tree_resumed::<N>(children[k as int], (at.gas - 1) as i32, at.world).state is Waiting
        }),
    ensures
        ({
            let at = arrival::<N>(children, cursor, k, gas_left, world);
            let at_k = tree_resumed::<N>(children[k as int], (at.gas - 1) as i32, at.world);
            let sequence = TreeModel::Composite {
                kind: CompositeKind::Sequence,
                children,
                cursor,
            };
            let r = tree_resumed::<N>(sequence, gas_left, world);
            &&& r.state == at_k.state
            &&& r.world == at_k.world
            &&& r.node is Composite
            &&& r.node->kind == CompositeKind::Sequence
            &&& r.node->cursor == k
            &&& r.node->children.len() == children.len()
            &&& r.node->children[k as int] == at_k.node
        }),
{
    lemma_run_ends_at::<N>(
        CompositeKind::Sequence,
        children,
        children,
        cursor,
        k,
        gas_left,
        world,
    );
}

/// A composite that is resumed starts with the child under its cursor. The
/// children before the cursor have no part in what the call comes to, and the
/// call hands them back as they were.
pub proof fn lemma_resume_starts_at_cursor<N: PoweredFunction>(
    kind: CompositeKind,
    children: Seq<TreeModel<N::V>>,
    other: Seq<TreeModel<N::V>>,
    cursor: nat,
    gas_left: i32,
    world: N::World,
)
    requires
        other.len() == children.len(),
        forall|i: int| cursor <= i < children.len() ==> children[i] == other[i],
    ensures
        ({
            let r = tree_resumed::<N>(
                TreeModel::Composite { kind, children, cursor },
                gas_left,
                world,
            );
            let o = tree_resumed::<N>(
                TreeModel::Composite { kind, children: other, cursor },
                gas_left,
                world,
            );
            &&& r.state == o.state
            &&& r.world == o.world
            &&& r.node is Composite
            &&& o.node is Composite
            &&& r.node->cursor == o.node->cursor
            &&& r.node->children.len() == children.len()
            &&& forall|i: int|
                0 <= i < cursor && i < children.len() ==> #[trigger] r.node->children[i]
                    == children[i]
            &&& forall|i: int|
                cursor <= i < children.len() ==> #[trigger] r.node->children[i]
                    == o.node->children[i]
        }),
{
    lemma_run_starts_at_cursor::<N>(kind, children, other, cursor, gas_left, world);
}

/// A selector whose children before `k` each fail when their turn comes,
/// and whose child `k` completes, completes as a whole, with child `k`'s
/// outcome and its cursor at 0. The children after `k` are not looked at:
/// the call hands them back as they were, and a selector that differs only
/// in them comes to the same.
pub proof fn lemma_selector_first_success_wins<N: PoweredFunction>(
    children: Seq<TreeModel<N::V>>,
    other: Seq<TreeModel<N::V>>,
    k: nat,
    gas_left: i32,
    world: N::World,
)
    requires
        k < children.len(),
        k < other.len(),
        forall|i: int| 0 <= i <= k ==> children[i] == other[i],
        passes_through::<N>(CompositeKind::Selector, children, 0, k, gas_left, world),
        arrival::<N>(children, 0, k, gas_left, world).gas > 0,
        ({
            let at = arrival::<N>(children, 0, k, gas_left, world);
            tree_resumed::<N>(children[k as int], (at.gas - 1) as i32, at.world).state is Complete
        }),
    ensures
        ({
            let at = arrival::<N>(children, 0, k, gas_left, world);
            let at_k = tree_resumed::<N>(children[k as int], (at.gas - 1) as i32, at.world);
            let r = tree_resumed::<N>(
                TreeModel::Composite { kind: CompositeKind::Selector, children, cursor: 0 },
                gas_left,
                world,
            );
            let o = tree_resumed::<N>(
                TreeModel::Composite { kind: CompositeKind::Selector, children: other, cursor: 0 },
                gas_left,
                world,
            );
            &&& r.state == at_k.state
            &&& r.world == at_k.world
            &&& r.node is Composite
            &&& r.node->cursor == 0
            &&& r.node->children.len() == children.len()
            &&& r.node->children[k as int] == at_k.node
            &&& forall|j: int|
                k < j < children.len() ==> #[trigger] r.node->children[j] == children[j]
            &&& o.state == r.state
            &&& o.world == r.world
        }),
{
    lemma_run_ends_at::<N>(CompositeKind::Selector, children, other, 0, k, gas_left, world);
}

/// What a tree hands back lies between nothing and what it was given: the
/// gas that is left is a credit, and a tick never adds to it.
pub proof fn lemma_gas_left_is_a_credit<N: PoweredFunction>(
    tree: TreeModel<N::V>,
    gas_left: i32,
    world: N::World,
)
    requires
        gas_left >= 0,
    ensures
        0 <= tree_resumed::<N>(tree, gas_left, world).state.gas() <= gas_left,
{
    lemma_tree_within_budget::<N>(tree, gas_left, world);
}

/// A composite that is given no gas waits: it hands the gas back, visits no
/// child, and leaves itself and the world as they were.
pub proof fn lemma_no_gas_waits<N: PoweredFunction>(
    kind: CompositeKind,
    children: Seq<TreeModel<N::V>>,
    cursor: nat,
    gas_left: i32,
    world: N::World,
)
    requires
        gas_left <= 0,
    ensures
        tree_resumed::<N>(TreeModel::Composite { kind, children, cursor }, gas_left, world) == (
        Resumed {
            state: PoweredFunctionState::Waiting(gas_left),
            node: TreeModel::Composite { kind, children, cursor },
            world,
        }),
{
    let r = children_run::<N>(kind, children, cursor, gas_left, world);
    assert(r.state == PoweredFunctionState::Waiting(gas_left) && r.children == children
        && r.cursor == cursor && r.world == world);
}

/// A tree as first made is clean: a reset changes neither the tree nor the
/// world, so a tree that is reset before its first tick runs as one that is not.
pub proof fn lemma_reset_of_new_tree<T: UserNodeDefinition>(
    def: PoweredTreeDef<T>,
    gas_left: i32,
    world: <T::Node as PoweredFunction>::World,
)
    ensures
        tree_reset::<T::Node>(def.tree(), world) == (def.tree(), world),
        ({
            let (tree, after) = tree_reset::<T::Node>(def.tree(), world);
            tree_resumed::<T::Node>(tree, gas_left, after) == tree_resumed::<T::Node>(
                def.tree(),
                gas_left,
                world,
            )
        }),
    decreases def,
{
    match def {
        PoweredTreeDef::User(leaf) => {
            leaf.lemma_new_node_is_clean(world);
        },
        PoweredTreeDef::Sequence(defs) => {
            lemma_def_trees(defs@, defs@.len());
            if defs@.len() > 0 {
                lemma_reset_of_new_tree(defs@[0], gas_left, world);
                let children = def_trees(defs@, defs@.len());
                assert(children.update(0, def_tree(defs@[0])) =~= children);
            }
        },
        PoweredTreeDef::Selector(defs) => {
            lemma_def_trees(defs@, defs@.len());
            if defs@.len() > 0 {
                lemma_reset_of_new_tree(defs@[0], gas_left, world);
                let children = def_trees(defs@, defs@.len());
                assert(children.update(0, def_tree(defs@[0])) =~= children);
            }
        },
        PoweredTreeDef::ResetOnInterrupt(child) => {
            lemma_reset_of_new_tree(*child, gas_left, world);
        },
    }
}

/// A composite that has come to `Complete` or `Failed` has its cursor at 0,
/// so that its next tick starts from the top: a tree that is ticked for good
/// runs as a loop without any help from outside.
pub proof fn lemma_ended_composite_starts_over<N: PoweredFunction>(
    kind: CompositeKind,
    children: Seq<TreeModel<N::V>>,
    cursor: nat,
    gas_left: i32,
    world: N::World,
)
    ensures
        ({
            let r = tree_resumed::<N>(
                TreeModel::Composite { kind, children, cursor },
                gas_left,
                world,
            );
            r.state.is_terminal() ==> r.node is Composite && r.node->cursor == 0
        }),
{
    lemma_ended_run_starts_over::<N>(kind, children, cursor, gas_left, world);
}

/// A run that has come to `Complete` or `Failed` leaves the cursor at 0.
pub proof fn lemma_ended_run_starts_over<N: PoweredFunction>(
    kind: CompositeKind,
    children: Seq<TreeModel<N::V>>,
    cursor: nat,
    gas_left: i32,
    world: N::World,
)
    ensures
        ({
            let r = children_run::<N>(kind, children, cursor, gas_left, world);
            r.state.is_terminal() ==> r.cursor == 0
        }),
    decreases children.len() - cursor,
{
    if gas_left > 0 && cursor < children.len() {
        let r = tree_resumed::<N>(children[cursor as int], (gas_left - 1) as i32, world);
        if !(r.state is Waiting) && kind.advances_on(r.state) && cursor + 1 < children.len() {
            lemma_ended_run_starts_over::<N>(kind, children, cursor + 1, r.state.gas(), r.world);
        }
    }
}

/// While the blackboard raises its interrupt, the wrapper completes with
/// all its gas and resets its child, whatever progress the child has made;
/// the child is not resumed. Without the interrupt the wrapper comes to
/// what its child comes to.
pub proof fn lemma_interrupt_resets_the_child<N: PoweredFunction>(
    child: TreeModel<N::V>,
    gas_left: i32,
    world: N::World,
)
    ensures
        ({
            let r = tree_resumed::<N>(
                TreeModel::ResetOnInterrupt(Box::new(child)),
                gas_left,
                world,
            );
            if world.interrupted() {
                &&& r.state == PoweredFunctionState::Complete(gas_left)
                &&& r.node == TreeModel::ResetOnInterrupt(
                    Box::new(tree_reset::<N>(child, world).0),
                )
                &&& r.world == tree_reset::<N>(child, world).1
            } else {
                &&& r.state == tree_resumed::<N>(child, gas_left, world).state
                &&& r.node == TreeModel::ResetOnInterrupt(
                    Box::new(tree_resumed::<N>(child, gas_left, world).node),
                )
                &&& r.world == tree_resumed::<N>(child, gas_left, world).world
            }
        }),
{
}

/// A tree as first made is well formed.
pub proof fn lemma_new_tree_is_well_formed<T: UserNodeDefinition>(def: PoweredTreeDef<T>)
    ensures
        def.tree().well_formed(),
    decreases def,
{
    match def {
        PoweredTreeDef::User(leaf) => {},
        PoweredTreeDef::Sequence(defs) => {
            lemma_def_trees(defs@, defs@.len());
            assert forall|i: int| 0 <= i < defs@.len() implies (#[trigger] def_trees(
                defs@,
                defs@.len(),
            )[i]).well_formed() by {
                lemma_new_tree_is_well_formed(defs@[i]);
            }
        },
        PoweredTreeDef::Selector(defs) => {
            lemma_def_trees(defs@, defs@.len());
            assert forall|i: int| 0 <= i < defs@.len() implies (#[trigger] def_trees(
                defs@,
                defs@.len(),
            )[i]).well_formed() by {
                lemma_new_tree_is_well_formed(defs@[i]);
            }
        },
        PoweredTreeDef::ResetOnInterrupt(child) => {
            lemma_new_tree_is_well_formed(*child);
        },
    }
}

/// A reset leaves a well-formed tree well formed.
pub proof fn lemma_reset_stays_well_formed<N: PoweredFunction>(
    tree: TreeModel<N::V>,
    world: N::World,
)
    requires
        tree.well_formed(),
    ensures
        tree_reset::<N>(tree, world).0.well_formed(),
    decreases tree,
{
    match tree {
        TreeModel::User(node) => {},
        TreeModel::Composite { kind, children, cursor } => {
            if cursor < children.len() {
                lemma_reset_stays_well_formed::<N>(children[cursor as int], world);
            }
        },
        TreeModel::ResetOnInterrupt(child) => {
            lemma_reset_stays_well_formed::<N>(*child, world);
        },
    }
}

/// A tick leaves a well-formed tree well formed: whatever happens, every
/// cursor still points at a child.
pub proof fn lemma_resumed_stays_well_formed<N: PoweredFunction>(
    tree: TreeModel<N::V>,
    gas_left: i32,
    world: N::World,
)
    requires
        tree.well_formed(),
    ensures
        tree_resumed::<N>(tree, gas_left, world).node.well_formed(),
    decreases tree, 0nat,
{
    match tree {
        TreeModel::User(node) => {},
        TreeModel::Composite { kind, children, cursor } => {
            lemma_run_stays_well_formed::<N>(kind, children, cursor, gas_left, world);
        },
        TreeModel::ResetOnInterrupt(child) => {
            if world.interrupted() {
                lemma_reset_stays_well_formed::<N>(*child, world);
            } else {
                lemma_resumed_stays_well_formed::<N>(*child, gas_left, world);
            }
        },
    }
}

/// A run over well-formed children with the cursor among them hands back
/// well-formed children, as many as before, and a cursor among them.
pub proof fn lemma_run_stays_well_formed<N: PoweredFunction>(
    kind: CompositeKind,
    children: Seq<TreeModel<N::V>>,
    cursor: nat,
    gas_left: i32,
    world: N::World,
)
    requires
        cursor < children.len() || cursor == 0,
        forall|i: int| 0 <= i < children.len() ==> (#[trigger] children[i]).well_formed(),
    ensures
        ({
            let r = children_run::<N>(kind, children, cursor, gas_left, world);
            &&& r.children.len() == children.len()
            &&& r.cursor < children.len() || r.cursor == 0
            &&& forall|i: int| 0 <= i < children.len() ==> (#[trigger] r.children[i]).well_formed()
        }),
    decreases children, children.len() - cursor,
{
    if gas_left > 0 && cursor < children.len() {
        let r = tree_resumed::<N>(children[cursor as int], (gas_left - 1) as i32, world);
        lemma_resumed_stays_well_formed::<N>(children[cursor as int], (gas_left - 1) as i32, world);
        if !(r.state is Waiting) && kind.advances_on(r.state) && cursor + 1 < children.len() {
            lemma_run_stays_well_formed::<N>(kind, children, cursor + 1, r.state.gas(), r.world);
        }
    }
}

} // verus!

//! Facts about the model of a run that the interpreter's proofs rest on.
use crate::ai::powered::{
    children_run, def_tree, def_trees, tree_models, tree_resumed, tree_views, CompositeKind,
    Interruptible, PoweredFunction, PoweredTree, PoweredTreeDef, TreeModel, UserNodeDefinition,
};
use vstd::prelude::*;

verus! {

/// A run reads and writes only the children from the cursor onwards: two rows
/// that agree there run alike, and each keeps what it held before the cursor.
pub proof fn lemma_run_starts_at_cursor<N: PoweredFunction>(
    kind: CompositeKind,
    a: Seq<TreeModel<N::V>>,
    b: Seq<TreeModel<N::V>>,
    cursor: nat,
    gas_left: i32,
    world: N::World,
)
    requires
        a.len() == b.len(),
        forall|i: int| cursor <= i < a.len() ==> a[i] == b[i],
    ensures
        ({
            let ra = children_run::<N>(kind, a, cursor, gas_left, world);
            let rb = children_run::<N>(kind, b, cursor, gas_left, world);
            &&& ra.state == rb.state
            &&& ra.cursor == rb.cursor
            &&& ra.world == rb.world
            &&& ra.children.len() == a.len()
            &&& rb.children.len() == b.len()
            &&& forall|i: int|
                cursor <= i < a.len() ==> #[trigger] ra.children[i] == rb.children[i]
            &&& forall|i: int| 0 <= i < cursor && i < a.len() ==> #[trigger] ra.children[i] == a[i]
            &&& forall|i: int| 0 <= i < cursor && i < b.len() ==> #[trigger] rb.children[i] == b[i]
        }),
    decreases a.len() - cursor,
{
    if gas_left > 0 && cursor < a.len() {
        let r = tree_resumed::<N>(a[cursor as int], (gas_left - 1) as i32, world);
        if !(r.state is Waiting) && kind.advances_on(r.state) && cursor + 1 < a.len() {
            lemma_run_starts_at_cursor::<N>(kind, a, b, cursor + 1, r.state.gas(), r.world);
        }
    }
}

/// Once the child under the cursor has moved the run on, the rest of the run
/// is the run over the row that holds the child as it is now.
pub proof fn lemma_run_step<N: PoweredFunction>(
    kind: CompositeKind,
    children: Seq<TreeModel<N::V>>,
    cursor: nat,
    gas_left: i32,
    world: N::World,
)
    requires
        gas_left > 0,
        cursor + 1 < children.len(),
        kind.advances_on(
            tree_resumed::<N>(children[cursor as int], (gas_left - 1) as i32, world).state,
        ),
    ensures
        ({
            let r = tree_resumed::<N>(children[cursor as int], (gas_left - 1) as i32, world);
            children_run::<N>(kind, children, cursor, gas_left, world) == children_run::<N>(
                kind,
                children.update(cursor as int, r.node),
                cursor + 1,
                r.state.gas(),
                r.world,
            )
        }),
{
    let r = tree_resumed::<N>(children[cursor as int], (gas_left - 1) as i32, world);
    let moved = children.update(cursor as int, r.node);
    lemma_run_starts_at_cursor::<N>(kind, children, moved, cursor + 1, r.state.gas(), r.world);
    let rest = children_run::<N>(kind, children, cursor + 1, r.state.gas(), r.world);
    let rest_moved = children_run::<N>(kind, moved, cursor + 1, r.state.gas(), r.world);
    assert forall|i: int| 0 <= i < children.len() implies rest.children.update(
        cursor as int,
        r.node,
    )[i] == rest_moved.children[i] by {
        if i <= cursor {
            assert(rest_moved.children[i] == moved[i]);
            if i < cursor {
                assert(rest.children[i] == children[i]);
            }
        } else {
            assert(rest.children[i] == rest_moved.children[i]);
        }
    }
    assert(rest.children.update(cursor as int, r.node) =~= rest_moved.children);
}

/// The models of the first `n` trees of a row are the views of those trees.
pub proof fn lemma_tree_models<N: View>(trees: Seq<PoweredTree<N>>, n: nat)
    requires
        n <= trees.len(),
    ensures
        tree_models(trees, n).len() == n,
        forall|i: int| 0 <= i < n ==> #[trigger] tree_models(trees, n)[i] == trees[i]@,
    decreases n,
{
    if n > 0 {
        lemma_tree_models(trees, (n - 1) as nat);
    }
}

/// The trees that the first `n` definitions of a row describe are those of
/// the definitions one by one.
pub proof fn lemma_def_trees<T: UserNodeDefinition>(defs: Seq<PoweredTreeDef<T>>, n: nat)
    requires
        n <= defs.len(),
    ensures
        def_trees(defs, n).len() == n,
        forall|i: int| 0 <= i < n ==> #[trigger] def_trees(defs, n)[i] == def_tree(defs[i]),
    decreases n,
{
    if n > 0 {
        lemma_def_trees(defs, (n - 1) as nat);
    }
}

/// The model of a composite holds the models of its children.
pub proof fn lemma_composite_view<N: View>(
    kind: CompositeKind,
    children: Vec<PoweredTree<N>>,
    cursor: usize,
)
    ensures
        (PoweredTree::Composite { kind, children, cursor })@ == (TreeModel::Composite {
            kind,
            children: tree_views(children@),
            cursor: cursor as nat,
        }),
{
    lemma_tree_models(children@, children@.len());
    assert(tree_models(children@, children@.len()) =~= tree_views(children@));
}

/// A tree hands back no more gas than it was given, and no less than none
/// if it was given any.
pub proof fn lemma_tree_within_budget<N: PoweredFunction>(
    tree: TreeModel<N::V>,
    gas_left: i32,
    world: N::World,
)
    ensures
        tree_resumed::<N>(tree, gas_left, world).state.gas() <= gas_left,
        gas_left >= 0 ==> tree_resumed::<N>(tree, gas_left, world).state.gas() >= 0,
    decreases tree, 0nat,
{
    match tree {
        TreeModel::User(node) => {
            N::lemma_resumed_within_budget(node, gas_left, world);
        },
        TreeModel::Composite { kind, children, cursor } => {
            lemma_run_within_budget::<N>(kind, children, cursor, gas_left, world);
        },
        TreeModel::ResetOnInterrupt(child) => {
            if !world.interrupted() {
                lemma_tree_within_budget::<N>(*child, gas_left, world);
            }
        },
    }
}

/// A run hands back no more gas than it was given, and no less than none
/// if it was given any.
pub proof fn lemma_run_within_budget<N: PoweredFunction>(
    kind: CompositeKind,
    children: Seq<TreeModel<N::V>>,
    cursor: nat,
    gas_left: i32,
    world: N::World,
)
    ensures
        children_run::<N>(kind, children, cursor, gas_left, world).state.gas() <= gas_left,
        gas_left >= 0 ==> children_run::<N>(kind, children, cursor, gas_left, world).state.gas()
            >= 0,
    decreases children, children.len() - cursor,
{
    if gas_left > 0 && cursor < children.len() {
        let r = tree_resumed::<N>(children[cursor as int], (gas_left - 1) as i32, world);
        lemma_tree_within_budget::<N>(children[cursor as int], (gas_left - 1) as i32, world);
        if !(r.state is Waiting) && kind.advances_on(r.state) && cursor + 1 < children.len() {
            lemma_run_within_budget::<N>(kind, children, cursor + 1, r.state.gas(), r.world);
        }
    }
}

} // verus!

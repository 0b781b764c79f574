//! Global degree-of-freedom numbers of an element, in the order the element
//! lists its nodes.
//!
//! Each node contributes [`DOF_PER_NODE`] consecutive entries (ux, uy, uz, rx,
//! ry, rz); a joint-panel node may add [`PANEL_DOF_PER_NODE`] shear-angle
//! entries. A component that dropped out of the global system (restrained or
//! slaved) is marked with the sentinel [`NO_DOF`], so that assembly skips the
//! matching row and column.
use smallvec::SmallVec;
use vstd::prelude::*;
use vstd::seq_lib::lemma_flatten_concat;

verus! {

/// Translational and rotational components per node.
pub const DOF_PER_NODE: usize = 6;

/// Shear-deformation components of a joint panel per node.
pub const PANEL_DOF_PER_NODE: usize = 2;

/// Marker for a component without a global equation number.
pub const NO_DOF: usize = usize::MAX;

/// Identifier of a node; its value is also the node's index in the model.
#[derive(Clone, Copy, Debug, PartialEq, Eq, Hash, Structural)]
pub struct NodeId(pub u32);

impl NodeId {
    /// Index of the node in the model's node list.
    pub fn index(&self) -> (i: usize)
        ensures
            i == self.0,
    {
        self.0 as usize
    }
}

/// Global equation numbers of the model's components.
///
/// `active[g]` is the equation number of node component `g`
/// (`node_index * DOF_PER_NODE + component`), `None` for a component that is
/// not part of the global system. `panel[n * PANEL_DOF_PER_NODE + d]` is the
/// equation number of shear angle `d` of the joint panel at node `n`.
/// Components past the end of either list have no equation number.
pub struct DofMap {
    pub active: Vec<Option<usize>>,
    pub panel: Vec<Option<usize>>,
}

/// The number stored for a component: its equation number, or [`NO_DOF`].
pub open spec fn dof_slot(a: Option<usize>) -> usize {
    match a {
        Some(x) => x,
        None => NO_DOF,
    }
}

impl DofMap {
    pub open spec fn spec_active(&self, g: int) -> Option<usize> {
        if 0 <= g < self.active@.len() {
            self.active@[g]
        } else {
            None
        }
    }

    pub open spec fn spec_panel(&self, node: int, d: int) -> Option<usize> {
        let k = node * PANEL_DOF_PER_NODE + d;
        if 0 <= d < PANEL_DOF_PER_NODE && 0 <= k < self.panel@.len() {
            self.panel@[k]
        } else {
            None
        }
    }

    /// Equation number of node component `g`.
    pub fn active(&self, g: usize) -> (r: Option<usize>)
        ensures
            r == self.spec_active(g as int),
    {
        if g < self.active.len() {
            self.active[g]
        } else {
            None
        }
    }

    /// Equation number of shear angle `d` of the joint panel at node `node_idx`.
    pub fn panel_dof(&self, node_idx: usize, d: usize) -> (r: Option<usize>)
        ensures
            r == self.spec_panel(node_idx as int, d as int),
    {
        if d >= PANEL_DOF_PER_NODE {
            return None;
        }
        let k = (node_idx as u128) * (PANEL_DOF_PER_NODE as u128) + (d as u128);
        if k < self.panel.len() as u128 {
            self.panel[k as usize]
        } else {
            None
        }
    }
}

/// The entries that one node contributes.
pub open spec fn node_slots(n: NodeId, dof: DofMap) -> Seq<usize> {
    Seq::new(DOF_PER_NODE as nat, |d: int| dof_slot(dof.spec_active(n.0 * DOF_PER_NODE + d)))
}

/// The entries of a node list, node after node.
pub open spec fn node_dofs(nodes: Seq<NodeId>, dof: DofMap) -> Seq<usize> {
    nodes.map_values(|n: NodeId| node_slots(n, dof)).flatten()
}

/// The entries of the joint panel at a node.
pub open spec fn panel_slots(node_idx: int, dof: DofMap) -> Seq<usize> {
    Seq::new(PANEL_DOF_PER_NODE as nat, |d: int| dof_slot(dof.spec_panel(node_idx, d)))
}

/// Node ids small enough that every component index fits a `usize`.
pub open spec fn nodes_addressable(nodes: Seq<NodeId>) -> bool {
    forall|i: int| 0 <= i < nodes.len() ==> #[trigger] nodes[i].0 * DOF_PER_NODE + DOF_PER_NODE <= usize::MAX
}

/// A growable list of global equation numbers (24 entries inline).
#[verifier::external_body]
pub struct DofList {
    inner: SmallVec<[usize; 24]>,
}

/// What a [`DofList`] holds, first entry first.
pub uninterp spec fn dof_list(v: DofList) -> Seq<usize>;

/// Upper bound on the entries a list is grown to here.
pub const DOF_LIST_LIMIT: usize = 0x10_0000;

/// `SmallVec::new`: an empty list.
#[verifier::external_body]
fn dof_list_new() -> (v: DofList)
    ensures
        dof_list(v) == Seq::<usize>::empty(),
{
    DofList { inner: SmallVec::new() }
}

/// `SmallVec::push`: appends `x` after the last entry.
#[verifier::external_body]
fn dof_list_push(v: &mut DofList, x: usize)
    requires
        dof_list(*old(v)).len() < DOF_LIST_LIMIT,
    ensures
        dof_list(*final(v)) == dof_list(*old(v)).push(x),
{
    v.inner.push(x)
}

/// `SmallVec::len`: the number of entries.
#[verifier::external_body]
fn dof_list_len(v: &DofList) -> (n: usize)
    ensures
        n == dof_list(*v).len(),
{
    v.inner.len()
}

impl DofList {
    /// An empty list.
    pub fn new() -> (v: DofList)
        ensures
            dof_list(v) == Seq::<usize>::empty(),
    {
        dof_list_new()
    }

    /// The number of entries.
    pub fn len(&self) -> (n: usize)
        ensures
            n == dof_list(*self).len(),
    {
        dof_list_len(self)
    }

    /// Appends `x` after the last entry.
    pub fn push(&mut self, x: usize)
        requires
            dof_list(*old(self)).len() < DOF_LIST_LIMIT,
        ensures
            dof_list(*final(self)) == dof_list(*old(self)).push(x),
    {
        dof_list_push(self, x)
    }

    /// The entries as a slice.
    pub fn as_slice(&self) -> (s: &[usize])
        ensures
            s@ == dof_list(*self),
    {
        dof_list_as_slice(self)
    }
}

/// `SmallVec::as_slice`: the entries, first entry first.
#[verifier::external_body]
fn dof_list_as_slice(v: &DofList) -> (s: &[usize])
    ensures
        s@ == dof_list(*v),
{
    v.inner.as_slice()
}

/// Entries of the nodes `nodes`, node after node (see [`push_node_global_dofs`]).
pub fn node_global_dofs(nodes: &[NodeId], dof: &DofMap) -> (g: DofList)
    requires
        nodes_addressable(nodes@),
        nodes@.len() * DOF_PER_NODE < DOF_LIST_LIMIT,
    ensures
        dof_list(g) == node_dofs(nodes@, *dof),
{
    let mut g = DofList::new();
    push_node_global_dofs(&mut g, nodes, dof);
    assert(dof_list(g) =~= node_dofs(nodes@, *dof));
    g
}

/// Appends the entries of `nodes` after the existing ones: for each node in
/// the given order, its [`DOF_PER_NODE`] components, each the component's
/// equation number or [`NO_DOF`].
pub fn push_node_global_dofs(out: &mut DofList, nodes: &[NodeId], dof: &DofMap)
    requires
        nodes_addressable(nodes@),
        dof_list(*old(out)).len() + nodes@.len() * DOF_PER_NODE < DOF_LIST_LIMIT,
    ensures
        dof_list(*final(out)) == dof_list(*old(out)) + node_dofs(nodes@, *dof),
{
    let ghost start = dof_list(*out);
    let ghost f = |n: NodeId| node_slots(n, *dof);
    let mut i: usize = 0;
    while i < nodes.len()
        invariant
            0 <= i <= nodes@.len(),
            nodes_addressable(nodes@),
            start.len() + nodes@.len() * DOF_PER_NODE < DOF_LIST_LIMIT,
            f == (|n: NodeId| node_slots(n, *dof)),
            dof_list(*out) == start + nodes@.take(i as int).map_values(f).flatten(),
        decreases nodes@.len() - i,
    {
        let ghost before = dof_list(*out);
        let ni = nodes[i].index();
        proof {
            lemma_flatten_len_bound(nodes@.take(i as int), *dof);
            assert(nodes@[i as int].0 * DOF_PER_NODE + DOF_PER_NODE <= usize::MAX);
            assert((i + 1) * DOF_PER_NODE <= nodes@.len() * DOF_PER_NODE) by (nonlinear_arith)
                requires i < nodes@.len();
        }
        let mut d: usize = 0;
        while d < DOF_PER_NODE
            invariant
                0 <= d <= DOF_PER_NODE,
                ni == nodes@[i as int].0,
                ni * DOF_PER_NODE + DOF_PER_NODE <= usize::MAX,
                before.len() == start.len() + i * DOF_PER_NODE,
                start.len() + (i + 1) * DOF_PER_NODE < DOF_LIST_LIMIT,
                dof_list(*out) == before + node_slots(nodes@[i as int], *dof).take(d as int),
            decreases DOF_PER_NODE - d,
        {
            let g = ni * DOF_PER_NODE + d;
            let slot = match dof.active(g) {
                Some(a) => a,
                None => NO_DOF,
            };
            out.push(slot);
            assert(node_slots(nodes@[i as int], *dof).take(d + 1) =~= node_slots(
                nodes@[i as int],
                *dof,
            ).take(d as int).push(slot));
            d += 1;
        }
        proof {
            assert(node_slots(nodes@[i as int], *dof).take(DOF_PER_NODE as int) =~= node_slots(
                nodes@[i as int],
                *dof,
            ));
            assert(nodes@.take(i + 1) =~= nodes@.take(i as int).push(nodes@[i as int]));
            assert(nodes@.take(i + 1).map_values(f) =~= nodes@.take(i as int).map_values(f).push(
                f(nodes@[i as int]),
            ));
            nodes@.take(i as int).map_values(f).lemma_flatten_push(f(nodes@[i as int]));
        }
        i += 1;
    }
    assert(nodes@.take(nodes@.len() as int) =~= nodes@);
}


/// Appends the [`PANEL_DOF_PER_NODE`] shear-angle entries of the joint panel
/// at node `node_idx`, each the equation number or [`NO_DOF`].
pub fn push_panel_global_dofs(out: &mut DofList, node_idx: usize, dof: &DofMap)
    requires
        dof_list(*old(out)).len() + PANEL_DOF_PER_NODE < DOF_LIST_LIMIT,
    ensures
        dof_list(*final(out)) == dof_list(*old(out)) + panel_slots(node_idx as int, *dof),
{
    let ghost start = dof_list(*out);
    let mut d: usize = 0;
    while d < PANEL_DOF_PER_NODE
        invariant
            0 <= d <= PANEL_DOF_PER_NODE,
            start.len() + PANEL_DOF_PER_NODE < DOF_LIST_LIMIT,
            dof_list(*out) == start + panel_slots(node_idx as int, *dof).take(d as int),
        decreases PANEL_DOF_PER_NODE - d,
    {
        let slot = match dof.panel_dof(node_idx, d) {
            Some(a) => a,
            None => NO_DOF,
        };
        out.push(slot);
        assert(panel_slots(node_idx as int, *dof).take(d + 1) =~= panel_slots(
            node_idx as int,
            *dof,
        ).take(d as int).push(slot));
        d += 1;
    }
    assert(panel_slots(node_idx as int, *dof).take(PANEL_DOF_PER_NODE as int) =~= panel_slots(
        node_idx as int,
        *dof,
    ));
}

/// The entries follow the order in which the nodes are given: the entries of
/// a concatenated node list are the entries of the first part followed by
/// those of the second.
pub proof fn lemma_node_dofs_follow_node_order(a: Seq<NodeId>, b: Seq<NodeId>, dof: DofMap)
    ensures
        node_dofs(a + b, dof) == node_dofs(a, dof) + node_dofs(b, dof),
{
    let f = |n: NodeId| node_slots(n, dof);
    assert((a + b).map_values(f) =~= a.map_values(f) + b.map_values(f));
    lemma_flatten_concat(a.map_values(f), b.map_values(f));
}

/// Component `d` of the `i`-th node stands at entry `i * DOF_PER_NODE + d`,
/// and holds that component's equation number or [`NO_DOF`].
pub proof fn lemma_node_dofs_entry(nodes: Seq<NodeId>, dof: DofMap, i: int, d: int)
    requires
        0 <= i < nodes.len(),
        0 <= d < DOF_PER_NODE,
    ensures
        node_dofs(nodes, dof).len() == nodes.len() * DOF_PER_NODE,
        node_dofs(nodes, dof)[i * DOF_PER_NODE + d] == dof_slot(
            dof.spec_active(nodes[i].0 * DOF_PER_NODE + d),
        ),
{
    lemma_flatten_len_bound(nodes, dof);
    let pre = nodes.take(i);
    let rest = nodes.skip(i);
    assert(nodes =~= pre + rest);
    lemma_node_dofs_follow_node_order(pre, rest, dof);
    lemma_flatten_len_bound(pre, dof);
    let one = seq![nodes[i]];
    assert(rest =~= one + rest.skip(1));
    lemma_node_dofs_follow_node_order(one, rest.skip(1), dof);
    let f = |n: NodeId| node_slots(n, dof);
    assert(one.map_values(f) =~= seq![node_slots(nodes[i], dof)]);
    one.map_values(f).lemma_flatten_singleton();
    assert(node_dofs(one, dof) == node_slots(nodes[i], dof));
}

/// The entries of `k` nodes number `k * DOF_PER_NODE`.
pub proof fn lemma_flatten_len_bound(nodes: Seq<NodeId>, dof: DofMap)
    ensures
        node_dofs(nodes, dof).len() == nodes.len() * DOF_PER_NODE,
    decreases nodes.len(),
{
    let f = |n: NodeId| node_slots(n, dof);
    if nodes.len() > 0 {
        let init = nodes.drop_last();
        lemma_flatten_len_bound(init, dof);
        assert(nodes =~= init.push(nodes.last()));
        assert(nodes.map_values(f) =~= init.map_values(f).push(f(nodes.last())));
        init.map_values(f).lemma_flatten_push(f(nodes.last()));
    } else {
        assert(nodes.map_values(f) =~= Seq::<Seq<usize>>::empty());
    }
}

} // verus!

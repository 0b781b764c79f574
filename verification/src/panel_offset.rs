//! Members joined to a joint panel.
//!
//! At a node with a joint panel, a member is joined at the panel's face
//! rather than at the node: the panel offset is folded into the member's rigid
//! zone, and the panel's shear angles `(γX, γY)` enter the member-end
//! rotations `ΘX`, `ΘY` with a factor ζ that depends on the face: girders
//! (horizontal members) join at ζ = −0.5, columns (vertical members) at
//! ζ = +0.5. Diagonal members keep joining at the node.
//!
//! The member's degrees of freedom become `[inner 12, (γX, γY) at the i end
//! if panelled, (γX, γY) at the j end if panelled]`.
use crate::dof::{
    dof_list, node_dofs, panel_slots, push_panel_global_dofs, DofList, DofMap,
    NodeId, DOF_LIST_LIMIT, PANEL_DOF_PER_NODE,
};
use crate::model::ElementKind;
use vstd::prelude::*;

verus! {

/// The face at which a member joins a joint panel.
#[derive(Clone, Copy, Debug, PartialEq, Eq, Structural)]
pub enum PanelFace {
    /// A girder (horizontal member): ζ = −0.5.
    Girder,
    /// A column (vertical member): ζ = +0.5.
    Column,
}

/// The direction of a member's axis.
#[derive(Clone, Copy, Debug, PartialEq, Eq, Structural)]
pub enum MemberDirection {
    /// Vertical component of the unit axis at least 0.8.
    Vertical,
    /// Vertical component of the unit axis at most 0.2.
    Horizontal,
    /// In between.
    Diagonal,
}

/// One end of a member that joins a joint panel.
#[derive(Clone, Copy, Debug, PartialEq, Eq, Structural)]
pub struct PanelEnd {
    /// The node that carries the panel (and its shear angles).
    pub node: NodeId,
    /// The face at which the member joins.
    pub face: PanelFace,
}

/// What [`resolve`] reads of a member and the model.
pub struct PanelMemberContext {
    /// The member's kind.
    pub kind: ElementKind,
    /// The member's nodes.
    pub nodes: Vec<NodeId>,
    /// The direction of the axis through the first two nodes; `None` when a
    /// node is missing from the model or the member has zero length.
    pub direction: Option<MemberDirection>,
    /// For each element of the model, its kind and first node.
    pub elements: Vec<(ElementKind, Option<NodeId>)>,
}

impl PanelMemberContext {
    /// Whether a joint panel is set at `node` (a panel element whose first
    /// node it is).
    pub open spec fn spec_is_panel_node(&self, node: NodeId) -> bool {
        exists|k: int|
            0 <= k < self.elements@.len() && (#[trigger] self.elements@[k]).0 == ElementKind::PanelZone
                && self.elements@[k].1 == Some(node)
    }

    /// The panel ends of the member, or `None` when it does not join a panel.
    pub open spec fn spec_resolve(&self) -> Option<[Option<PanelEnd>; 2]> {
        if self.kind != ElementKind::Beam || self.nodes@.len() < 2 {
            None
        } else {
            match self.direction {
                None => None,
                Some(MemberDirection::Diagonal) => None,
                Some(dir) => {
                    let face = if dir == MemberDirection::Vertical {
                        PanelFace::Column
                    } else {
                        PanelFace::Girder
                    };
                    let n0 = self.nodes@[0];
                    let n1 = self.nodes@[1];
                    let e0 = if self.spec_is_panel_node(n0) {
                        Some(PanelEnd { node: n0, face })
                    } else {
                        None
                    };
                    let e1 = if self.spec_is_panel_node(n1) {
                        Some(PanelEnd { node: n1, face })
                    } else {
                        None
                    };
                    if e0 is None && e1 is None {
                        None
                    } else {
                        Some([e0, e1])
                    }
                },
            }
        }
    }
}

/// Whether a joint panel is set at `node`.
pub fn is_panel_node(ctx: &PanelMemberContext, node: NodeId) -> (r: bool)
    ensures
        r == ctx.spec_is_panel_node(node),
{
    let mut k: usize = 0;
    while k < ctx.elements.len()
        invariant
            0 <= k <= ctx.elements@.len(),
            forall|j: int|
                0 <= j < k ==> !((#[trigger] ctx.elements@[j]).0 == ElementKind::PanelZone
                    && ctx.elements@[j].1 == Some(node)),
        decreases ctx.elements@.len() - k,
    {
        let (kind, first) = ctx.elements[k];
        if kind == ElementKind::PanelZone {
            if let Some(f) = first {
                if f.0 == node.0 {
                    assert(ctx.elements@[k as int].1 == Some(node));
                    return true;
                }
            }
        }
        k += 1;
    }
    false
}

/// The ends of a member that join a joint panel, with the face they join
/// at; `None` when the member is not a `Beam`, is diagonal or degenerate, or
/// has no panel at either end. The rigid zone of each panelled end is then
/// extended to the face distance by the caller.
pub fn resolve(ctx: &PanelMemberContext) -> (r: Option<[Option<PanelEnd>; 2]>)
    ensures
        r == ctx.spec_resolve(),
{
    if ctx.kind != ElementKind::Beam || ctx.nodes.len() < 2 {
        return None;
    }
    let face = match ctx.direction {
        None => return None,
        Some(MemberDirection::Diagonal) => return None,
        Some(MemberDirection::Vertical) => PanelFace::Column,
        Some(MemberDirection::Horizontal) => PanelFace::Girder,
    };
    let n0 = ctx.nodes[0];
    let n1 = ctx.nodes[1];
    let e0 = if is_panel_node(ctx, n0) {
        Some(PanelEnd { node: n0, face })
    } else {
        None
    };
    let e1 = if is_panel_node(ctx, n1) {
        Some(PanelEnd { node: n1, face })
    } else {
        None
    };
    if e0.is_none() && e1.is_none() {
        return None;
    }
    Some([e0, e1])
}

/// The number of panel shear angles a member carries: two per panelled end.
pub open spec fn spec_n_panel_dof<Z>(ends: [Option<Z>; 2]) -> nat {
    (if ends[0] is Some {
        2nat
    } else {
        0nat
    }) + (if ends[1] is Some {
        2nat
    } else {
        0nat
    })
}

/// The number of panel shear angles of a member (0, 2 or 4).
pub fn n_panel_dof<Z>(ends: &[Option<Z>; 2]) -> (n: usize)
    ensures
        n == spec_n_panel_dof(*ends),
{
    let mut n: usize = 0;
    if ends[0].is_some() {
        n += 2;
    }
    if ends[1].is_some() {
        n += 2;
    }
    n
}

/// The number of degrees of freedom of a panelled member: the inner 12 and
/// its panel shear angles.
pub fn n_dof<Z>(ends: &[Option<Z>; 2]) -> (n: usize)
    ensures
        n == 12 + spec_n_panel_dof(*ends),
{
    12 + n_panel_dof(ends)
}

/// The non-zero entries `(inner dof, panel dof, ζ)` of the coupling `C` in
/// `T = [I | C]`: each panelled end adds ζ·γX to ΘX and ζ·γY to ΘY (inner 3,
/// 4 at the i end, 9, 10 at the j end); the panel dofs are numbered from 12
/// in end order.
pub open spec fn spec_coupling<Z>(ends: [Option<Z>; 2]) -> Seq<(usize, usize, Z)> {
    let i_part = match ends[0] {
        Some(z) => seq![(3usize, 12usize, z), (4usize, 13usize, z)],
        None => Seq::empty(),
    };
    let col: usize = if ends[0] is Some {
        14
    } else {
        12
    };
    let j_part = match ends[1] {
        Some(z) => seq![(9usize, col, z), (10usize, (col + 1) as usize, z)],
        None => Seq::empty(),
    };
    i_part + j_part
}

/// The coupling entries of a member with panel factors `ends[side]` (see
/// [`spec_coupling`]).
pub fn coupling<Z: Copy>(ends: &[Option<Z>; 2]) -> (r: Vec<(usize, usize, Z)>)
    ensures
        r@ == spec_coupling(*ends),
{
    let mut out: Vec<(usize, usize, Z)> = Vec::new();
    let mut col: usize = 12;
    if let Some(z) = ends[0] {
        out.push((3, col, z));
        out.push((4, col + 1, z));
        col += 2;
    }
    if let Some(z) = ends[1] {
        out.push((9, col, z));
        out.push((10, col + 1, z));
    }
    assert(out@ =~= spec_coupling(*ends));
    out
}

/// Every coupling entry joins a nodal rotation ΘX or ΘY to a panel degree
/// of freedom of the member, and each panel degree of freedom appears once.
pub proof fn lemma_coupling_targets<Z>(ends: [Option<Z>; 2])
    ensures
        spec_coupling(ends).len() == spec_n_panel_dof(ends),
        forall|k: int|
            0 <= k < spec_coupling(ends).len() ==> {
                let (r, c, _z) = #[trigger] spec_coupling(ends)[k];
                &&& (r == 3 || r == 4 || r == 9 || r == 10)
                &&& 12 <= c < 12 + spec_n_panel_dof(ends)
                &&& c == 12 + k
            },
{
}

/// The panel shear-angle entries of the panelled ends, in end order.
pub open spec fn spec_panel_entries(ends: [Option<NodeId>; 2], dof: DofMap) -> Seq<usize> {
    (match ends[0] {
        Some(n) => panel_slots(n.0 as int, dof),
        None => Seq::empty(),
    }) + (match ends[1] {
        Some(n) => panel_slots(n.0 as int, dof),
        None => Seq::empty(),
    })
}

/// The global equation numbers of a panelled member: those of the inner
/// member (`inner`), followed by the panel shear angles of each panelled
/// end (`ends`: the panel node of each end), in end order.
pub fn panel_member_global_dofs(inner: DofList, ends: &[Option<NodeId>; 2], dof: &DofMap) -> (g: DofList)
    requires
        dof_list(inner).len() + 2 * PANEL_DOF_PER_NODE < DOF_LIST_LIMIT,
    ensures
        dof_list(g) == dof_list(inner) + spec_panel_entries(*ends, *dof),
{
    let mut g = inner;
    if let Some(n) = ends[0] {
        push_panel_global_dofs(&mut g, n.index(), dof);
    }
    if let Some(n) = ends[1] {
        push_panel_global_dofs(&mut g, n.index(), dof);
    }
    assert(dof_list(g) =~= dof_list(inner) + spec_panel_entries(*ends, *dof));
    g
}

/// A panelled two-node member numbers exactly its degrees of freedom: the
/// inner 12 of its nodes and two per panelled end.
pub proof fn lemma_panel_member_dof_count(nodes: Seq<NodeId>, ends: [Option<NodeId>; 2], dof: DofMap)
    requires
        nodes.len() == 2,
    ensures
        (node_dofs(nodes, dof) + spec_panel_entries(ends, dof)).len() == 12 + spec_n_panel_dof(
            ends,
        ),
{
    crate::dof::lemma_flatten_len_bound(nodes, dof);
}

/// Each end of a horizontal or vertical `Beam` joins a joint panel exactly
/// when a panel element stands at that end's own node, whatever holds at the
/// other end: a panelled end carries its own node and the face of the
/// member's direction (column face for vertical members, girder face for
/// horizontal ones). A member with no panel at either end, a diagonal or
/// degenerate member, or another element joins no panel.
pub proof fn lemma_each_end_joins_its_own_panel(ctx: PanelMemberContext, k: int)
    requires
        0 <= k < 2,
    ensures
        (ctx.kind == ElementKind::Beam && ctx.nodes@.len() >= 2 && (ctx.direction == Some(
            MemberDirection::Horizontal,
        ) || ctx.direction == Some(MemberDirection::Vertical))) ==> {
            &&& (ctx.spec_resolve() is Some) == (exists|e: int|
                0 <= e < ctx.elements@.len() && (#[trigger] ctx.elements@[e]).0
                    == ElementKind::PanelZone && (ctx.elements@[e].1 == Some(ctx.nodes@[0])
                    || ctx.elements@[e].1 == Some(ctx.nodes@[1])))
            &&& ctx.spec_resolve() matches Some(ends) ==> {
                &&& (ends[k] is Some) == (exists|e: int|
                    0 <= e < ctx.elements@.len() && (#[trigger] ctx.elements@[e]).0
                        == ElementKind::PanelZone && ctx.elements@[e].1 == Some(ctx.nodes@[k]))
                &&& ends[k] matches Some(pe) ==> pe.node == ctx.nodes@[k] && (pe.face
                    == PanelFace::Column) == (ctx.direction == Some(MemberDirection::Vertical))
            }
        },
        (ctx.kind != ElementKind::Beam || ctx.nodes@.len() < 2 || ctx.direction is None
            || ctx.direction == Some(MemberDirection::Diagonal)) ==> ctx.spec_resolve() is None,
{
}

} // verus!

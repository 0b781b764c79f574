//! Release of the torsion (rotation about the member axis) at the i end of
//! line members.
//!
//! A member's i-end torsion is released only where it leaves no node free to
//! spin about the member axis: at each end node something else (supports,
//! a support spring, a non-parallel or non-line member) must restrain that
//! rotation.
use crate::dof::NodeId;
use crate::model::ElementKind;
use vstd::prelude::*;

verus! {

/// Why the i-end torsion of a member is not released.
#[derive(Clone, Copy, Debug, PartialEq, Eq, Structural)]
pub enum TorsionReleaseSkip {
    /// The building-wide setting keeps member torsion.
    ModeKeep,
    /// The element is not a line member.
    NotLineMember,
    /// The member axis is undefined (fewer than two nodes, zero length).
    DegenerateAxis,
    /// Nothing else restrains the rotation about the member axis at `node`.
    UnrestrainedRotation { node: NodeId },
}

pub open spec fn spec_is_line_member(kind: ElementKind) -> bool {
    kind == ElementKind::Beam || kind == ElementKind::Fiber || kind == ElementKind::MultiSpring
        || kind == ElementKind::Brace
}

/// Whether elements of `kind` are line members (beams, columns, fiber and
/// multi-spring members, braces).
pub fn is_line_member(kind: ElementKind) -> (r: bool)
    ensures
        r == spec_is_line_member(kind),
{
    match kind {
        ElementKind::Beam | ElementKind::Fiber | ElementKind::MultiSpring | ElementKind::Brace => true,
        _ => false,
    }
}

/// The rotational support of a node.
#[derive(Clone, Copy, Debug)]
pub struct NodeSupport {
    /// Whether rotation about x, y, z is restrained.
    pub rot_fixed: [bool; 3],
    /// For a support spring, whether its rotational stiffness about x, y, z
    /// is positive.
    pub spring_rot_positive: Option<[bool; 3]>,
}

/// Another element of the model, as seen from the member under test.
pub struct OtherElement {
    /// The element's id.
    pub id: u32,
    /// The element's kind.
    pub kind: ElementKind,
    /// The element's nodes.
    pub nodes: Vec<NodeId>,
    /// Whether its axis is parallel to the member's axis; `None` when its axis
    /// is undefined.
    pub parallel: Option<bool>,
}

/// What the torsion release of a member reads from the model.
pub struct TorsionContext {
    /// Whether the building-wide setting releases i-end torsion.
    pub release_mode: bool,
    /// The member's id.
    pub id: u32,
    /// The member's kind.
    pub kind: ElementKind,
    /// Which global components (x, y, z) the member's unit axis has;
    /// `None` when the axis is undefined.
    pub axis: Option<[bool; 3]>,
    /// The member's nodes.
    pub nodes: Vec<NodeId>,
    /// The support of each node of the model, indexed by node index;
    /// `None` marks a node that the model lacks.
    pub supports: Vec<Option<NodeSupport>>,
    /// All elements of the model.
    pub elements: Vec<OtherElement>,
}

/// The rotation about `axis` is held by the node's supports: every axis
/// component's rotation is fixed (and the axis has one), or a support spring
/// is stiff in every axis component.
pub open spec fn spec_support_restrains(s: NodeSupport, axis: [bool; 3]) -> bool {
    ((exists|i: int| 0 <= i < 3 && axis[i]) && (forall|i: int| 0 <= i < 3 && axis[i] ==> s.rot_fixed[i]))
        || (s.spring_rot_positive matches Some(k) && (forall|i: int| 0 <= i < 3 && axis[i] ==> k[i]))
}

/// Element `o` holds the rotation at `node` for member `id`: it is another
/// element at that node, not a joint panel, and either not a line member or
/// a line member with an axis not parallel to the member's.
pub open spec fn spec_member_restrains(o: OtherElement, node: NodeId, id: u32) -> bool {
    &&& o.id != id
    &&& o.nodes@.contains(node)
    &&& o.kind != ElementKind::PanelZone
    &&& (!spec_is_line_member(o.kind) || o.parallel == Some(false))
}

impl TorsionContext {
    pub open spec fn spec_support(&self, node: NodeId) -> Option<NodeSupport> {
        if node.0 < self.supports@.len() {
            self.supports@[node.0 as int]
        } else {
            None
        }
    }

    /// Something other than the member's torsion restrains the rotation
    /// about `axis` at `node`.
    pub open spec fn spec_restrained_elsewhere(&self, node: NodeId, axis: [bool; 3]) -> bool {
        (self.spec_support(node) matches Some(s) && spec_support_restrains(s, axis)) || exists|k: int|
            0 <= k < self.elements@.len() && spec_member_restrains(
                #[trigger] self.elements@[k],
                node,
                self.id,
            )
    }

    /// Why the member's i-end torsion is not released, or `None` to release it.
    pub open spec fn spec_skip(&self) -> Option<TorsionReleaseSkip> {
        if !self.release_mode {
            Some(TorsionReleaseSkip::ModeKeep)
        } else if !spec_is_line_member(self.kind) {
            Some(TorsionReleaseSkip::NotLineMember)
        } else {
            match self.axis {
                None => Some(TorsionReleaseSkip::DegenerateAxis),
                Some(axis) => if self.nodes@.len() > 0 && !self.spec_restrained_elsewhere(
                    self.nodes@[0],
                    axis,
                ) {
                    Some(TorsionReleaseSkip::UnrestrainedRotation { node: self.nodes@[0] })
                } else if self.nodes@.len() > 1 && !self.spec_restrained_elsewhere(
                    self.nodes@[1],
                    axis,
                ) {
                    Some(TorsionReleaseSkip::UnrestrainedRotation { node: self.nodes@[1] })
                } else {
                    None
                },
            }
        }
    }
}

fn support_restrains(s: &NodeSupport, axis: &[bool; 3]) -> (r: bool)
    ensures
        r == spec_support_restrains(*s, *axis),
{
    let needed = axis[0] || axis[1] || axis[2];
    let fixed_all = (!axis[0] || s.rot_fixed[0]) && (!axis[1] || s.rot_fixed[1]) && (!axis[2]
        || s.rot_fixed[2]);
    if needed && fixed_all {
        assert(exists|i: int| 0 <= i < 3 && axis[i]) by {
            if axis[0] {
                assert(axis[0int]);
            } else if axis[1] {
                assert(axis[1int]);
            } else {
                assert(axis[2int]);
            }
        }
        return true;
    }
    assert(!(exists|i: int| 0 <= i < 3 && axis[i]) || !(forall|i: int|
        0 <= i < 3 && axis[i] ==> s.rot_fixed[i])) by {
        if !needed {
            assert forall|i: int| 0 <= i < 3 implies !axis[i] by {}
        } else {
            if axis[0] && !s.rot_fixed[0] {
                assert(!(axis[0int] ==> s.rot_fixed[0int]));
            } else if axis[1] && !s.rot_fixed[1] {
                assert(!(axis[1int] ==> s.rot_fixed[1int]));
            } else {
                assert(!(axis[2int] ==> s.rot_fixed[2int]));
            }
        }
    }
    match s.spring_rot_positive {
        Some(k) => {
            let ok = (!axis[0] || k[0]) && (!axis[1] || k[1]) && (!axis[2] || k[2]);
            if !ok {
                if axis[0] && !k[0] {
                    assert(!(axis[0int] ==> k[0int]));
                } else if axis[1] && !k[1] {
                    assert(!(axis[1int] ==> k[1int]));
                } else {
                    assert(!(axis[2int] ==> k[2int]));
                }
            }
            ok
        },
        None => false,
    }
}

fn contains_node(nodes: &Vec<NodeId>, node: NodeId) -> (r: bool)
    ensures
        r == nodes@.contains(node),
{
    let mut i: usize = 0;
    while i < nodes.len()
        invariant
            0 <= i <= nodes@.len(),
            forall|k: int| 0 <= k < i ==> nodes@[k] != node,
        decreases nodes@.len() - i,
    {
        if nodes[i].0 == node.0 {
            assert(nodes@[i as int] == node);
            return true;
        }
        i += 1;
    }
    false
}

/// Whether something other than the member's own torsion restrains the
/// rotation about the member axis at `node`.
pub fn rotation_restrained_elsewhere(ctx: &TorsionContext, node: NodeId, axis: &[bool; 3]) -> (r: bool)
    ensures
        r == ctx.spec_restrained_elsewhere(node, *axis),
{
    let idx = node.index();
    if idx < ctx.supports.len() {
        if let Some(s) = &ctx.supports[idx] {
            if support_restrains(s, axis) {
                return true;
            }
        }
    }
    let mut k: usize = 0;
    while k < ctx.elements.len()
        invariant
            0 <= k <= ctx.elements@.len(),
            !(ctx.spec_support(node) matches Some(s) && spec_support_restrains(s, *axis)),
            forall|j: int| 0 <= j < k ==> !spec_member_restrains(#[trigger] ctx.elements@[j], node, ctx.id),
        decreases ctx.elements@.len() - k,
    {
        let other = &ctx.elements[k];
        if other.id != ctx.id && contains_node(&other.nodes, node) && other.kind
            != ElementKind::PanelZone {
            if !is_line_member(other.kind) {
                assert(spec_member_restrains(ctx.elements@[k as int], node, ctx.id));
                return true;
            }
            if let Some(p) = other.parallel {
                if !p {
                    assert(spec_member_restrains(ctx.elements@[k as int], node, ctx.id));
                    return true;
                }
            }
        }
        k += 1;
    }
    false
}

/// Why the member's i-end torsion is not released, or `None` when it may be
/// released (see [`TorsionContext::spec_skip`]).
pub fn i_end_torsion_release_skip(ctx: &TorsionContext) -> (r: Option<TorsionReleaseSkip>)
    ensures
        r == ctx.spec_skip(),
{
    if !ctx.release_mode {
        return Some(TorsionReleaseSkip::ModeKeep);
    }
    if !is_line_member(ctx.kind) {
        return Some(TorsionReleaseSkip::NotLineMember);
    }
    let axis = match ctx.axis {
        None => return Some(TorsionReleaseSkip::DegenerateAxis),
        Some(a) => a,
    };
    if ctx.nodes.len() > 0 {
        let n0 = ctx.nodes[0];
        if !rotation_restrained_elsewhere(ctx, n0, &axis) {
            return Some(TorsionReleaseSkip::UnrestrainedRotation { node: n0 });
        }
    }
    if ctx.nodes.len() > 1 {
        let n1 = ctx.nodes[1];
        if !rotation_restrained_elsewhere(ctx, n1, &axis) {
            return Some(TorsionReleaseSkip::UnrestrainedRotation { node: n1 });
        }
    }
    None
}

/// Whether the member's i-end torsion may be released.
pub fn i_end_torsion_release(ctx: &TorsionContext) -> (r: bool)
    ensures
        r == (ctx.spec_skip() is None),
{
    i_end_torsion_release_skip(ctx).is_none()
}

/// A released i end never leaves an end node free to spin: at the first two
/// nodes something else restrains the rotation about the member axis.
pub proof fn lemma_released_torsion_is_restrained(ctx: TorsionContext)
    requires
        ctx.spec_skip() is None,
        ctx.release_mode,
    ensures
        spec_is_line_member(ctx.kind),
        ctx.axis is Some,
        forall|i: int|
            0 <= i < 2 && i < ctx.nodes@.len() ==> ctx.spec_restrained_elsewhere(
                #[trigger] ctx.nodes@[i],
                ctx.axis->0,
            ),
{
}

} // verus!

//! Which stiffness increases apply to a member: slab cooperation for
//! reinforced concrete girders, composite action for steel girders, and the
//! stiffening of the top and bottom girders of seismic wall panels.
use crate::dof::NodeId;
use crate::model::{ElementKind, SectionShapeKind};
use vstd::prelude::*;

verus! {

/// The stiffness increase of a section's strong-axis bending.
#[derive(Clone, Copy, Debug, PartialEq, Eq, Structural)]
pub enum SlabFactorSource {
    /// Slab cooperating width on a reinforced concrete rectangle.
    SlabCooperation,
    /// Composite action of an H-shaped steel girder with the slab.
    CompositeBeam,
    /// No increase.
    Unchanged,
}

pub open spec fn spec_slab_factor_source(shape: Option<SectionShapeKind>) -> SlabFactorSource {
    match shape {
        Some(SectionShapeKind::RcRect) => SlabFactorSource::SlabCooperation,
        Some(SectionShapeKind::SteelH) => SlabFactorSource::CompositeBeam,
        _ => SlabFactorSource::Unchanged,
    }
}

/// The stiffness increase that applies to a section of shape `shape`.
pub fn slab_factor_source(shape: Option<SectionShapeKind>) -> (r: SlabFactorSource)
    ensures
        r == spec_slab_factor_source(shape),
{
    match shape {
        Some(SectionShapeKind::RcRect) => SlabFactorSource::SlabCooperation,
        Some(SectionShapeKind::SteelH) => SlabFactorSource::CompositeBeam,
        _ => SlabFactorSource::Unchanged,
    }
}

/// The equivalent section of a composite member.
#[derive(Clone, Copy, Debug, PartialEq, Eq, Structural)]
pub enum CompositeKind {
    /// Steel-reinforced concrete equivalent section.
    Src,
    /// Concrete-filled tube equivalent section.
    Cft,
}

pub open spec fn spec_composite_kind(shape: SectionShapeKind, has_fc: bool) -> Option<CompositeKind> {
    if !has_fc {
        None
    } else {
        match shape {
            SectionShapeKind::SrcRect => Some(CompositeKind::Src),
            SectionShapeKind::CftBox | SectionShapeKind::CftPipe => Some(CompositeKind::Cft),
            _ => None,
        }
    }
}

/// The equivalent section used for a member of shape `shape` whose material
/// has (`has_fc`) or lacks a concrete strength: SRC rectangles and
/// concrete-filled tubes with an Fc, none otherwise.
pub fn composite_kind(shape: SectionShapeKind, has_fc: bool) -> (r: Option<CompositeKind>)
    ensures
        r == spec_composite_kind(shape, has_fc),
{
    if !has_fc {
        return None;
    }
    match shape {
        SectionShapeKind::SrcRect => Some(CompositeKind::Src),
        SectionShapeKind::CftBox | SectionShapeKind::CftPipe => Some(CompositeKind::Cft),
        _ => None,
    }
}

/// An element of the model, as the wall-girder rule sees it.
pub struct WallCandidate {
    /// The element's kind.
    pub kind: ElementKind,
    /// The element's nodes.
    pub nodes: Vec<NodeId>,
    /// Whether it is a seismic wall.
    pub seismic: bool,
}

pub open spec fn spec_bounds_wall(e: WallCandidate, n0: NodeId, n1: NodeId) -> bool {
    &&& e.kind == ElementKind::Wall
    &&& e.nodes@.len() >= 4
    &&& e.nodes@.contains(n0)
    &&& e.nodes@.contains(n1)
    &&& e.seismic
}

pub open spec fn spec_is_wall_top_bottom_girder(elements: Seq<WallCandidate>, n0: NodeId, n1: NodeId) -> bool {
    exists|k: int| 0 <= k < elements.len() && spec_bounds_wall(#[trigger] elements[k], n0, n1)
}

fn contains(nodes: &Vec<NodeId>, node: NodeId) -> (r: bool)
    ensures
        r == nodes@.contains(node),
{
    let mut i: usize = 0;
    while i < nodes.len()
        invariant
            0 <= i <= nodes@.len(),
            forall|k: int| 0 <= k < i ==> nodes@[k] != node,
        decreases nodes@.len() - i,
    {
        if nodes[i].0 == node.0 {
            assert(nodes@[i as int] == node);
            return true;
        }
        i += 1;
    }
    false
}

/// Whether the member between `n0` and `n1` is the top or bottom girder of
/// a seismic wall panel: some wall of at least four nodes has both nodes.
pub fn is_wall_top_bottom_girder(elements: &Vec<WallCandidate>, n0: NodeId, n1: NodeId) -> (r: bool)
    ensures
        r == spec_is_wall_top_bottom_girder(elements@, n0, n1),
{
    let mut k: usize = 0;
    while k < elements.len()
        invariant
            0 <= k <= elements@.len(),
            forall|j: int| 0 <= j < k ==> !spec_bounds_wall(#[trigger] elements@[j], n0, n1),
        decreases elements@.len() - k,
    {
        let e = &elements[k];
        if e.kind == ElementKind::Wall && e.nodes.len() >= 4 && contains(&e.nodes, n0) && contains(
            &e.nodes,
            n1,
        ) && e.seismic {
            assert(spec_bounds_wall(elements@[k as int], n0, n1));
            return true;
        }
        k += 1;
    }
    false
}

/// Whether the wall-girder stiffening applies to a member: a horizontal
/// member with at least two nodes that is the top or bottom girder of a
/// seismic wall.
pub fn wall_girder_applies(
    is_horizontal: bool,
    nodes: &Vec<NodeId>,
    elements: &Vec<WallCandidate>,
) -> (r: bool)
    ensures
        r == (is_horizontal && nodes@.len() >= 2 && spec_is_wall_top_bottom_girder(
            elements@,
            nodes@[0],
            nodes@[1],
        )),
{
    is_horizontal && nodes.len() >= 2 && is_wall_top_bottom_girder(elements, nodes[0], nodes[1])
}

/// The girder rule is symmetric in the member's ends.
pub proof fn lemma_wall_girder_symmetric(elements: Seq<WallCandidate>, n0: NodeId, n1: NodeId)
    ensures
        spec_is_wall_top_bottom_girder(elements, n0, n1) == spec_is_wall_top_bottom_girder(
            elements,
            n1,
            n0,
        ),
{
    if spec_is_wall_top_bottom_girder(elements, n0, n1) {
        let k = choose|k: int| 0 <= k < elements.len() && spec_bounds_wall(#[trigger] elements[k], n0, n1);
        assert(spec_bounds_wall(elements[k], n1, n0));
    }
    if spec_is_wall_top_bottom_girder(elements, n1, n0) {
        let k = choose|k: int| 0 <= k < elements.len() && spec_bounds_wall(#[trigger] elements[k], n1, n0);
        assert(spec_bounds_wall(elements[k], n0, n1));
    }
}

} // verus!

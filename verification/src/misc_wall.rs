//! Which edges of an in-frame non-seismic wall a member runs along.
//!
//! A non-seismic wall (wing wall, spandrel, hanging wall) stiffens the frame
//! member it is attached to. A column attached to a wall is one of the
//! wall's side edges, `bottom[s]`–`top[s]`: side `s = 0` lies along the
//! wall's bottom direction, `s = 1` against it, and the wing extends from
//! the column toward the wall. A girder attached to a wall is its bottom or
//! its top edge. Members and edges are matched by their end nodes, in either
//! order.
use crate::dof::NodeId;
use vstd::prelude::*;

verus! {

/// The bottom and top edges of a wall, by their end nodes (the bottom edge
/// runs along the wall's bottom direction); `None` for an edge that the
/// wall's outline does not give.
#[derive(Clone, Copy, Debug)]
pub struct WallEdges {
    /// The bottom edge.
    pub bottom: Option<[NodeId; 2]>,
    /// The top edge.
    pub top: Option<[NodeId; 2]>,
}

/// The member with end nodes `member` joins `a` and `b`, in either order.
pub open spec fn spec_same_pair(member: [NodeId; 2], a: NodeId, b: NodeId) -> bool {
    (member[0] == a && member[1] == b) || (member[0] == b && member[1] == a)
}

/// Whether the member with end nodes `member` joins `a` and `b`, in either
/// order.
pub fn same_pair(member: [NodeId; 2], a: NodeId, b: NodeId) -> (r: bool)
    ensures
        r == spec_same_pair(member, a, b),
{
    (member[0].0 == a.0 && member[1].0 == b.0) || (member[0].0 == b.0 && member[1].0 == a.0)
}

/// The sides `s` of the wall whose side edge `bottom[s]`–`top[s]` is the
/// column `member`; a wall without both edges has no side edges.
pub open spec fn spec_wing_sides(member: [NodeId; 2], edges: WallEdges) -> [bool; 2] {
    match (edges.bottom, edges.top) {
        (Some(b), Some(t)) => [spec_same_pair(member, b[0], t[0]), spec_same_pair(member, b[1], t[1])],
        _ => [false, false],
    }
}

/// For each side of the wall, whether the column `member` is that side's
/// edge, so that the wall stands out from it as a wing wall.
pub fn wing_sides(member: [NodeId; 2], edges: &WallEdges) -> (r: [bool; 2])
    ensures
        r == spec_wing_sides(member, *edges),
{
    match (edges.bottom, edges.top) {
        (Some(b), Some(t)) => [same_pair(member, b[0], t[0]), same_pair(member, b[1], t[1])],
        _ => [false, false],
    }
}

pub open spec fn spec_on_edge(member: [NodeId; 2], edge: Option<[NodeId; 2]>) -> bool {
    edge matches Some(e) && spec_same_pair(member, e[0], e[1])
}

fn on_edge(member: [NodeId; 2], edge: Option<[NodeId; 2]>) -> (r: bool)
    ensures
        r == spec_on_edge(member, edge),
{
    match edge {
        Some(e) => same_pair(member, e[0], e[1]),
        None => false,
    }
}

/// For the girder `member`, whether it is the wall's bottom edge (the wall
/// stands on it) and whether it is its top edge (the wall hangs from it).
pub fn strip_edges(member: [NodeId; 2], edges: &WallEdges) -> (r: [bool; 2])
    ensures
        r == [spec_on_edge(member, edges.bottom), spec_on_edge(member, edges.top)],
{
    [on_edge(member, edges.bottom), on_edge(member, edges.top)]
}

/// The edge of a wall that a girder carries.
#[derive(Clone, Copy, Debug, PartialEq, Eq, Structural)]
pub enum StripEdge {
    /// The wall stands on the girder: its strip extends upward.
    Bottom,
    /// The wall hangs from the girder: its strip extends downward.
    Top,
}

pub open spec fn spec_attached_strip(member: [NodeId; 2], edges: WallEdges) -> Option<StripEdge> {
    if spec_on_edge(member, edges.bottom) {
        Some(StripEdge::Bottom)
    } else if spec_on_edge(member, edges.top) {
        Some(StripEdge::Top)
    } else {
        None
    }
}

/// The one wall strip that the section of girder `member` takes in: the
/// bottom edge when the girder is it, else the top edge when the girder is
/// that, else none.
pub fn attached_strip(member: [NodeId; 2], edges: &WallEdges) -> (r: Option<StripEdge>)
    ensures
        r == spec_attached_strip(member, *edges),
{
    if on_edge(member, edges.bottom) {
        Some(StripEdge::Bottom)
    } else if on_edge(member, edges.top) {
        Some(StripEdge::Top)
    } else {
        None
    }
}

/// Matching does not depend on the order in which a member lists its end
/// nodes, nor on the order in which an edge lists its nodes.
pub proof fn lemma_matching_ignores_node_order(member: [NodeId; 2], edges: WallEdges)
    ensures
        spec_wing_sides([member[1], member[0]], edges) == spec_wing_sides(member, edges),
        spec_on_edge([member[1], member[0]], edges.bottom) == spec_on_edge(member, edges.bottom),
        spec_on_edge([member[1], member[0]], edges.top) == spec_on_edge(member, edges.top),
        spec_attached_strip([member[1], member[0]], edges) == spec_attached_strip(member, edges),
        forall|a: NodeId, b: NodeId| spec_same_pair(member, a, b) == spec_same_pair(member, b, a),
{
    assert(spec_wing_sides([member[1], member[0]], edges) =~= spec_wing_sides(member, edges));
}

/// A girder takes in at most one strip, and takes one exactly when it is
/// the bottom or the top edge of the wall; when it is both, the bottom one.
pub proof fn lemma_attached_strip_is_a_matched_edge(member: [NodeId; 2], edges: WallEdges)
    ensures
        (spec_attached_strip(member, edges) is Some) == (spec_on_edge(member, edges.bottom)
            || spec_on_edge(member, edges.top)),
        spec_attached_strip(member, edges) == Some(StripEdge::Top) ==> !spec_on_edge(
            member,
            edges.bottom,
        ),
{
}

} // verus!

//! Which floor slabs cooperate with a girder, for the slab cooperating
//! width of its strong-axis bending stiffness.
//!
//! A slab cooperates with a girder when the girder lies on the slab's
//! boundary (both end nodes are boundary nodes) and the slab has a plate
//! thickness. Slabs are taken from the floor regions first (a region counts
//! when one of its slabs has a plate); a slab that some floor region already
//! refers to is not taken again on its own. The cooperating widths
//! themselves are measured from the node coordinates of the boundaries.
use crate::dof::NodeId;
use crate::model::ElementKind;
use vstd::prelude::*;

verus! {

/// A floor region, as the cooperating width sees it.
pub struct FloorRegionFacts {
    /// The ids of the slabs that the region refers to.
    pub slab_ids: Vec<u32>,
    /// The region's boundary nodes.
    pub boundary: Vec<NodeId>,
    /// Whether any of its slabs has a positive plate thickness.
    pub has_plate: bool,
}

/// A slab, as the cooperating width sees it.
pub struct SlabFacts {
    /// The slab's id.
    pub id: u32,
    /// The slab's boundary nodes, when its outline is given by nodes.
    pub boundary: Option<Vec<NodeId>>,
    /// Whether it has a plate thickness.
    pub has_plate: bool,
}

/// Where a cooperating slab comes from.
#[derive(Clone, Copy, Debug, PartialEq, Eq, Structural)]
pub enum SlabSource {
    /// The floor region of that index.
    Region(usize),
    /// The slab of that index, not referred to by any floor region.
    Slab(usize),
}

/// Both end nodes of the member lie on `boundary`.
pub open spec fn spec_on_boundary(boundary: Seq<NodeId>, member: [NodeId; 2]) -> bool {
    boundary.contains(member[0]) && boundary.contains(member[1])
}

/// Some floor region refers to the slab `id`.
pub open spec fn spec_referenced(regions: Seq<FloorRegionFacts>, id: u32) -> bool {
    exists|i: int| 0 <= i < regions.len() && (#[trigger] regions[i]).slab_ids@.contains(id)
}

pub open spec fn spec_region_cooperates(r: FloorRegionFacts, member: [NodeId; 2]) -> bool {
    r.has_plate && spec_on_boundary(r.boundary@, member)
}

pub open spec fn spec_slab_cooperates(
    regions: Seq<FloorRegionFacts>,
    s: SlabFacts,
    member: [NodeId; 2],
) -> bool {
    &&& !spec_referenced(regions, s.id)
    &&& s.has_plate
    &&& s.boundary matches Some(b) && spec_on_boundary(b@, member)
}

/// The cooperating floor regions among the first `n`, in region order.
pub open spec fn spec_region_sources(regions: Seq<FloorRegionFacts>, member: [NodeId; 2], n: int) -> Seq<
    SlabSource,
>
    decreases n,
{
    if n <= 0 {
        Seq::empty()
    } else {
        let rest = spec_region_sources(regions, member, n - 1);
        if spec_region_cooperates(regions[n - 1], member) {
            rest.push(SlabSource::Region((n - 1) as usize))
        } else {
            rest
        }
    }
}

/// The cooperating standalone slabs among the first `n`, in slab order.
pub open spec fn spec_slab_sources(
    regions: Seq<FloorRegionFacts>,
    slabs: Seq<SlabFacts>,
    member: [NodeId; 2],
    n: int,
) -> Seq<SlabSource>
    decreases n,
{
    if n <= 0 {
        Seq::empty()
    } else {
        let rest = spec_slab_sources(regions, slabs, member, n - 1);
        if spec_slab_cooperates(regions, slabs[n - 1], member) {
            rest.push(SlabSource::Slab((n - 1) as usize))
        } else {
            rest
        }
    }
}

/// The slabs that cooperate with the member: the floor regions, then the
/// slabs that no region refers to.
pub open spec fn spec_cooperating_slabs(
    regions: Seq<FloorRegionFacts>,
    slabs: Seq<SlabFacts>,
    member: [NodeId; 2],
) -> Seq<SlabSource> {
    spec_region_sources(regions, member, regions.len() as int) + spec_slab_sources(
        regions,
        slabs,
        member,
        slabs.len() as int,
    )
}

fn contains_node(nodes: &Vec<NodeId>, node: NodeId) -> (r: bool)
    ensures
        r == nodes@.contains(node),
{
    let mut i: usize = 0;
    while i < nodes.len()
        invariant
            0 <= i <= nodes@.len(),
            forall|k: int| 0 <= k < i ==> nodes@[k] != node,
        decreases nodes@.len() - i,
    {
        if nodes[i].0 == node.0 {
            assert(nodes@[i as int] == node);
            return true;
        }
        i += 1;
    }
    false
}

fn contains_id(ids: &Vec<u32>, id: u32) -> (r: bool)
    ensures
        r == ids@.contains(id),
{
    let mut i: usize = 0;
    while i < ids.len()
        invariant
            0 <= i <= ids@.len(),
            forall|k: int| 0 <= k < i ==> ids@[k] != id,
        decreases ids@.len() - i,
    {
        if ids[i] == id {
            assert(ids@[i as int] == id);
            return true;
        }
        i += 1;
    }
    false
}

/// Whether both end nodes of the member lie on `boundary`.
pub fn on_boundary(boundary: &Vec<NodeId>, member: [NodeId; 2]) -> (r: bool)
    ensures
        r == spec_on_boundary(boundary@, member),
{
    contains_node(boundary, member[0]) && contains_node(boundary, member[1])
}

/// Whether some floor region refers to the slab `id`.
pub fn referenced(regions: &Vec<FloorRegionFacts>, id: u32) -> (r: bool)
    ensures
        r == spec_referenced(regions@, id),
{
    let mut i: usize = 0;
    while i < regions.len()
        invariant
            0 <= i <= regions@.len(),
            forall|k: int| 0 <= k < i ==> !(#[trigger] regions@[k]).slab_ids@.contains(id),
        decreases regions@.len() - i,
    {
        if contains_id(&regions[i].slab_ids, id) {
            return true;
        }
        i += 1;
    }
    false
}

/// The slabs that cooperate with the girder with end nodes `member` (see
/// [`spec_cooperating_slabs`]).
pub fn cooperating_slabs(
    regions: &Vec<FloorRegionFacts>,
    slabs: &Vec<SlabFacts>,
    member: [NodeId; 2],
) -> (r: Vec<SlabSource>)
    ensures
        r@ == spec_cooperating_slabs(regions@, slabs@, member),
{
    let mut out: Vec<SlabSource> = Vec::new();
    let mut i: usize = 0;
    while i < regions.len()
        invariant
            0 <= i <= regions@.len(),
            out@ == spec_region_sources(regions@, member, i as int),
        decreases regions@.len() - i,
    {
        let r = &regions[i];
        if r.has_plate && on_boundary(&r.boundary, member) {
            out.push(SlabSource::Region(i));
        }
        i += 1;
    }
    let ghost head = out@;
    let mut j: usize = 0;
    while j < slabs.len()
        invariant
            0 <= j <= slabs@.len(),
            head == spec_region_sources(regions@, member, regions@.len() as int),
            out@ == head + spec_slab_sources(regions@, slabs@, member, j as int),
        decreases slabs@.len() - j,
    {
        let s = &slabs[j];
        let takes = if s.has_plate && !referenced(regions, s.id) {
            match &s.boundary {
                Some(b) => on_boundary(b, member),
                None => false,
            }
        } else {
            false
        };
        if takes {
            out.push(SlabSource::Slab(j));
            assert(out@ =~= head + spec_slab_sources(regions@, slabs@, member, j + 1));
        }
        j += 1;
    }
    out
}

/// An element of the model, as the search for the beam across a slab sees
/// it.
pub struct BeamCandidate {
    /// The element's kind.
    pub kind: ElementKind,
    /// The element's nodes.
    pub nodes: Vec<NodeId>,
}

/// Element `e` is another beam along the slab's boundary: a `Beam` of at
/// least two nodes whose end nodes (first and last) both lie on the
/// boundary and that is not the member itself (same end nodes, either
/// order).
pub open spec fn spec_beam_across(e: BeamCandidate, member: [NodeId; 2], boundary: Seq<NodeId>) -> bool {
    &&& e.kind == ElementKind::Beam
    &&& e.nodes@.len() >= 2
    &&& !({
        let m = [e.nodes@[0], e.nodes@[e.nodes@.len() - 1]];
        (m[0] == member[0] && m[1] == member[1]) || (m[0] == member[1] && m[1] == member[0])
    })
    &&& boundary.contains(e.nodes@[0])
    &&& boundary.contains(e.nodes@[e.nodes@.len() - 1])
}

/// Whether element `e` is another beam on the slab's boundary, whose width
/// bounds the slab on the far side (see [`spec_beam_across`]); which one
/// lies on the far side is decided by its position.
pub fn beam_across(e: &BeamCandidate, member: [NodeId; 2], boundary: &Vec<NodeId>) -> (r: bool)
    ensures
        r == spec_beam_across(*e, member, boundary@),
{
    if e.kind != ElementKind::Beam || e.nodes.len() < 2 {
        return false;
    }
    let m0 = e.nodes[0];
    let m1 = e.nodes[e.nodes.len() - 1];
    if (m0.0 == member[0].0 && m1.0 == member[1].0) || (m0.0 == member[1].0 && m1.0 == member[0].0) {
        return false;
    }
    contains_node(boundary, m0) && contains_node(boundary, m1)
}

proof fn lemma_region_sources(regions: Seq<FloorRegionFacts>, member: [NodeId; 2], n: int)
    requires
        0 <= n <= regions.len(),
        n <= usize::MAX,
    ensures
        forall|k: int|
            0 <= k < spec_region_sources(regions, member, n).len() ==> {
                let c = #[trigger] spec_region_sources(regions, member, n)[k];
                &&& c is Region
                &&& 0 <= c->Region_0 < n
                &&& spec_region_cooperates(regions[c->Region_0 as int], member)
            },
    decreases n,
{
    if n > 0 {
        lemma_region_sources(regions, member, n - 1);
        let rest = spec_region_sources(regions, member, n - 1);
        let all = spec_region_sources(regions, member, n);
        assert forall|k: int| 0 <= k < all.len() implies {
            let c = #[trigger] all[k];
            &&& c is Region
            &&& 0 <= c->Region_0 < n
            &&& spec_region_cooperates(regions[c->Region_0 as int], member)
        } by {
            if k < rest.len() {
                assert(all[k] == rest[k]);
            }
        }
    }
}

proof fn lemma_slab_sources(
    regions: Seq<FloorRegionFacts>,
    slabs: Seq<SlabFacts>,
    member: [NodeId; 2],
    n: int,
)
    requires
        0 <= n <= slabs.len(),
        n <= usize::MAX,
    ensures
        forall|k: int|
            0 <= k < spec_slab_sources(regions, slabs, member, n).len() ==> {
                let c = #[trigger] spec_slab_sources(regions, slabs, member, n)[k];
                &&& c is Slab
                &&& 0 <= c->Slab_0 < n
                &&& spec_slab_cooperates(regions, slabs[c->Slab_0 as int], member)
            },
    decreases n,
{
    if n > 0 {
        lemma_slab_sources(regions, slabs, member, n - 1);
        let rest = spec_slab_sources(regions, slabs, member, n - 1);
        let all = spec_slab_sources(regions, slabs, member, n);
        assert forall|k: int| 0 <= k < all.len() implies {
            let c = #[trigger] all[k];
            &&& c is Slab
            &&& 0 <= c->Slab_0 < n
            &&& spec_slab_cooperates(regions, slabs[c->Slab_0 as int], member)
        } by {
            if k < rest.len() {
                assert(all[k] == rest[k]);
            }
        }
    }
}

/// Every cooperating slab has a plate and holds the member on its boundary,
/// and no slab is counted twice: a standalone slab is never one that a
/// floor region already refers to.
pub proof fn lemma_cooperating_slabs_sound(
    regions: Seq<FloorRegionFacts>,
    slabs: Seq<SlabFacts>,
    member: [NodeId; 2],
)
    requires
        regions.len() <= usize::MAX,
        slabs.len() <= usize::MAX,
    ensures
        forall|k: int|
            0 <= k < spec_cooperating_slabs(regions, slabs, member).len() ==> match #[trigger] spec_cooperating_slabs(
                regions,
                slabs,
                member,
            )[k] {
                SlabSource::Region(i) => i < regions.len() && regions[i as int].has_plate
                    && spec_on_boundary(regions[i as int].boundary@, member),
                SlabSource::Slab(j) => j < slabs.len() && slabs[j as int].has_plate
                    && !spec_referenced(regions, slabs[j as int].id) && (slabs[j as int].boundary matches Some(
                    b) && spec_on_boundary(b@, member)),
            },
{
    lemma_region_sources(regions, member, regions.len() as int);
    lemma_slab_sources(regions, slabs, member, slabs.len() as int);
    let a = spec_region_sources(regions, member, regions.len() as int);
    let b = spec_slab_sources(regions, slabs, member, slabs.len() as int);
    assert forall|k: int| 0 <= k < (a + b).len() implies match #[trigger] (a + b)[k] {
        SlabSource::Region(i) => i < regions.len() && regions[i as int].has_plate
            && spec_on_boundary(regions[i as int].boundary@, member),
        SlabSource::Slab(j) => j < slabs.len() && slabs[j as int].has_plate
            && !spec_referenced(regions, slabs[j as int].id) && (slabs[j as int].boundary matches Some(
            bd) && spec_on_boundary(bd@, member)),
    } by {
        if k < a.len() {
            assert((a + b)[k] == a[k]);
        } else {
            assert((a + b)[k] == b[k - a.len()]);
        }
    }
}

/// The cooperating slabs do not depend on the order in which the member
/// lists its end nodes.
pub proof fn lemma_cooperating_slabs_ignore_member_order(
    regions: Seq<FloorRegionFacts>,
    slabs: Seq<SlabFacts>,
    member: [NodeId; 2],
)
    ensures
        spec_cooperating_slabs(regions, slabs, [member[1], member[0]]) == spec_cooperating_slabs(
            regions,
            slabs,
            member,
        ),
{
    lemma_region_sources_symmetric(regions, member, regions.len() as int);
    lemma_slab_sources_symmetric(regions, slabs, member, slabs.len() as int);
}

proof fn lemma_region_sources_symmetric(regions: Seq<FloorRegionFacts>, member: [NodeId; 2], n: int)
    ensures
        spec_region_sources(regions, [member[1], member[0]], n) == spec_region_sources(
            regions,
            member,
            n,
        ),
    decreases n,
{
    if n > 0 {
        lemma_region_sources_symmetric(regions, member, n - 1);
    }
}

proof fn lemma_slab_sources_symmetric(
    regions: Seq<FloorRegionFacts>,
    slabs: Seq<SlabFacts>,
    member: [NodeId; 2],
    n: int,
)
    ensures
        spec_slab_sources(regions, slabs, [member[1], member[0]], n) == spec_slab_sources(
            regions,
            slabs,
            member,
            n,
        ),
    decreases n,
{
    if n > 0 {
        lemma_slab_sources_symmetric(regions, slabs, member, n - 1);
    }
}

} // verus!

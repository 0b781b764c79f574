//! Automatic rigid zones at member ends: which ends take the computed length.
//!
//! An end whose rigid-zone length was entered by hand (`Manual`) keeps it;
//! an `Auto` end takes the length computed from the joint. The face
//! distances (critical-section positions) are always taken from the
//! computation. Rigid zones are only computed where every column and girder
//! meeting at the joint is reinforced or steel-reinforced concrete.
use crate::model::ElementKind;
use vstd::prelude::*;

verus! {

/// How rigid zones are computed.
#[derive(Clone, Copy, Debug, PartialEq, Eq, Structural)]
pub struct RigidZoneRule {
    /// Whether walls attached to the members are taken into account.
    pub consider_walls: bool,
}

impl Default for RigidZoneRule {
    /// Walls are taken into account.
    fn default() -> (r: Self)
        ensures
            r.consider_walls,
    {
        Self { consider_walls: true }
    }
}

/// Where an end's rigid-zone length comes from.
#[derive(Clone, Copy, Debug, PartialEq, Eq, Structural)]
pub enum ZoneSource {
    /// Computed from the joint.
    Auto,
    /// Entered by hand.
    Manual,
}

/// The rigid zones at both ends of a member; `L` is the length type.
#[derive(Clone, Copy, Debug)]
pub struct RigidZone<L> {
    /// Rigid length at the i end.
    pub length_i: L,
    /// Rigid length at the j end.
    pub length_j: L,
    /// Source of the i-end length.
    pub source_i: ZoneSource,
    /// Source of the j-end length.
    pub source_j: ZoneSource,
    /// Distance from the i node to the column face, if known.
    pub face_i: Option<L>,
    /// Distance from the j node to the column face, if known.
    pub face_j: Option<L>,
    /// Offset of the i end into a joint panel.
    pub panel_offset_i: L,
    /// Offset of the j end into a joint panel.
    pub panel_offset_j: L,
}

/// `zone` after taking the computed values of `recomputed`: each `Auto` end
/// takes the computed length, each `Manual` end keeps its own; the face
/// distances are taken from the computation; all else stays.
pub open spec fn spec_recompute<L>(zone: RigidZone<L>, recomputed: RigidZone<L>) -> RigidZone<L> {
    RigidZone {
        length_i: if zone.source_i == ZoneSource::Auto {
            recomputed.length_i
        } else {
            zone.length_i
        },
        length_j: if zone.source_j == ZoneSource::Auto {
            recomputed.length_j
        } else {
            zone.length_j
        },
        face_i: recomputed.face_i,
        face_j: recomputed.face_j,
        ..zone
    }
}

/// Updates `zone` with the computed `recomputed` (see [`spec_recompute`]).
pub fn recompute_auto_zones<L: Copy>(zone: &mut RigidZone<L>, recomputed: &RigidZone<L>)
    ensures
        *final(zone) == spec_recompute(*old(zone), *recomputed),
{
    if zone.source_i == ZoneSource::Auto {
        zone.length_i = recomputed.length_i;
    }
    if zone.source_j == ZoneSource::Auto {
        zone.length_j = recomputed.length_j;
    }
    zone.face_i = recomputed.face_i;
    zone.face_j = recomputed.face_j;
}

/// The zones of all members after the automatic computation: each member
/// for which a zone was computed (the line members, `Beam`) is updated by
/// [`spec_recompute`]; the others keep theirs.
pub open spec fn spec_apply_auto<L>(zones: Seq<RigidZone<L>>, computed: Seq<Option<RigidZone<L>>>) -> Seq<RigidZone<L>> {
    Seq::new(
        zones.len(),
        |i: int|
            match computed[i] {
                Some(c) => spec_recompute(zones[i], c),
                None => zones[i],
            },
    )
}

/// Applies the computed zones `computed[i]` to the members' zones
/// `zones[i]` (see [`spec_apply_auto`]).
pub fn apply_auto_rigid_zones<L: Copy>(zones: &mut Vec<RigidZone<L>>, computed: &Vec<Option<RigidZone<L>>>)
    requires
        old(zones)@.len() == computed@.len(),
    ensures
        final(zones)@ == spec_apply_auto(old(zones)@, computed@),
{
    let ghost start = zones@;
    let n = zones.len();
    let mut i: usize = 0;
    while i < n
        invariant
            0 <= i <= n,
            n == zones@.len(),
            n == computed@.len(),
            n == start.len(),
            forall|k: int| 0 <= k < i ==> zones@[k] == spec_apply_auto(start, computed@)[k],
            forall|k: int| i <= k < n ==> zones@[k] == start[k],
        decreases n - i,
    {
        match computed[i] {
            Some(c) => {
                let mut z = zones[i];
                recompute_auto_zones(&mut z, &c);
                zones.set(i, z);
            },
            None => {},
        }
        i += 1;
    }
    assert(zones@ =~= spec_apply_auto(start, computed@));
}

/// Recomputing twice with the same result changes nothing more: the update
/// is idempotent.
pub proof fn lemma_recompute_idempotent<L>(zone: RigidZone<L>, recomputed: RigidZone<L>)
    ensures
        spec_recompute(spec_recompute(zone, recomputed), recomputed) == spec_recompute(
            zone,
            recomputed,
        ),
{
}

/// Hand-entered ends are protected: a `Manual` end keeps its length whatever
/// is computed, an `Auto` end takes the computed one, and the sources
/// themselves never change.
pub proof fn lemma_manual_ends_protected<L>(zone: RigidZone<L>, recomputed: RigidZone<L>)
    ensures
        zone.source_i == ZoneSource::Manual ==> spec_recompute(zone, recomputed).length_i
            == zone.length_i,
        zone.source_j == ZoneSource::Manual ==> spec_recompute(zone, recomputed).length_j
            == zone.length_j,
        zone.source_i == ZoneSource::Auto ==> spec_recompute(zone, recomputed).length_i
            == recomputed.length_i,
        zone.source_j == ZoneSource::Auto ==> spec_recompute(zone, recomputed).length_j
            == recomputed.length_j,
        spec_recompute(zone, recomputed).source_i == zone.source_i,
        spec_recompute(zone, recomputed).source_j == zone.source_j,
{
}

/// A member meeting at a joint, as the rigid-zone rule sees it.
#[derive(Clone, Copy, Debug, PartialEq, Eq, Structural)]
pub struct JointMember {
    /// The member's kind.
    pub kind: ElementKind,
    /// Whether its structure is steel-like (steel, CFT).
    pub steel_like: bool,
}

pub open spec fn spec_all_rc_src(members: Seq<JointMember>) -> bool {
    forall|k: int| 0 <= k < members.len() ==> (#[trigger] members[k]).kind != ElementKind::Beam
        || !members[k].steel_like
}

/// Whether every column and girder (`Beam`) meeting at a joint is reinforced
/// or steel-reinforced concrete; other kinds do not count.
pub fn all_rc_src_at(members: &Vec<JointMember>) -> (r: bool)
    ensures
        r == spec_all_rc_src(members@),
{
    let mut k: usize = 0;
    while k < members.len()
        invariant
            0 <= k <= members@.len(),
            forall|j: int| 0 <= j < k ==> (#[trigger] members@[j]).kind != ElementKind::Beam
                || !members@[j].steel_like,
        decreases members@.len() - k,
    {
        let m = members[k];
        if m.kind == ElementKind::Beam && m.steel_like {
            return false;
        }
        k += 1;
    }
    true
}

} // verus!

//! Member-end releases and the plastic-hinge degrees of freedom of fiber
//! members.
//!
//! Local degrees of freedom of a member are numbered `[ux, uy, uz, rx, ry,
//! rz]` at the i end (0..6) and at the j end (6..12). A pinned or semi-rigid
//! end splits its rotations off the node into internal degrees of freedom,
//! joined to the node through a rotational spring (zero for a pin), which are
//! then condensed out. A fixed end may still have its torsion released.
use crate::model::EndCondition;
use vstd::prelude::*;

verus! {

/// The spring between a released member-end rotation and the node.
#[derive(Clone, Copy, Debug, PartialEq, Eq, Structural)]
pub enum ReleaseSpring {
    /// No spring (a pin, or released torsion).
    Free,
    /// The rotational spring of the end's semi-rigid connection.
    SemiRigid,
}

/// A member-end rotation split off into an internal degree of freedom.
#[derive(Clone, Copy, Debug, PartialEq, Eq, Structural)]
pub struct ReleasedRotation {
    /// Local degree of freedom (3, 4, 5 at the i end; 9, 10, 11 at the j end).
    pub dof: usize,
    /// The spring that joins it to the node.
    pub spring: ReleaseSpring,
}

/// The end (0 = i, 1 = j) that local degree of freedom `dof` belongs to.
pub open spec fn end_of(dof: int) -> int {
    if dof < 6 {
        0
    } else {
        1
    }
}

/// Whether `dof` is a torsional rotation (about the member axis).
pub open spec fn is_torsion_dof(dof: int) -> bool {
    dof == 3 || dof == 9
}

/// Whether local degree of freedom `dof` is a rotation.
pub open spec fn is_rotation_dof(dof: int) -> bool {
    3 <= dof < 6 || 9 <= dof < 12
}

/// The spring of rotation `dof`, or `None` when it stays on the node: a
/// pinned end releases its rotations freely, a semi-rigid end through its
/// spring, a fixed end releases only torsion marked for release; torsion
/// stays on the node when the member has no torsional stiffness.
pub open spec fn spec_release_of(
    dof: int,
    end_cond: [EndCondition; 2],
    torsion_release: [bool; 2],
    has_torsion: bool,
) -> Option<ReleaseSpring> {
    let end = end_of(dof);
    if is_torsion_dof(dof) && !has_torsion {
        None
    } else {
        match end_cond[end] {
            EndCondition::Pinned => Some(ReleaseSpring::Free),
            EndCondition::SemiRigid => Some(ReleaseSpring::SemiRigid),
            EndCondition::Fixed => if is_torsion_dof(dof) && torsion_release[end] {
                Some(ReleaseSpring::Free)
            } else {
                None
            },
        }
    }
}

/// The rotations in the order in which they are considered.
pub open spec fn rotation_dofs() -> Seq<usize> {
    seq![3, 4, 5, 9, 10, 11]
}

/// The releases among the first `n` candidate rotations, in candidate order.
pub open spec fn spec_releases_upto(
    n: int,
    end_cond: [EndCondition; 2],
    torsion_release: [bool; 2],
    has_torsion: bool,
) -> Seq<ReleasedRotation>
    decreases n,
{
    if n <= 0 {
        Seq::empty()
    } else {
        let rest = spec_releases_upto(n - 1, end_cond, torsion_release, has_torsion);
        let dof = rotation_dofs()[n - 1];
        match spec_release_of(dof as int, end_cond, torsion_release, has_torsion) {
            Some(spring) => rest.push(ReleasedRotation { dof, spring }),
            None => rest,
        }
    }
}

/// The released rotations of a member.
pub open spec fn spec_end_releases(
    end_cond: [EndCondition; 2],
    torsion_release: [bool; 2],
    has_torsion: bool,
) -> Seq<ReleasedRotation> {
    spec_releases_upto(6, end_cond, torsion_release, has_torsion)
}

/// The member-end rotations split off into internal degrees of freedom, in
/// the order i-end rx, ry, rz, j-end rx, ry, rz. `torsion_release` marks the
/// ends whose torsion is released; `has_torsion` says that the member has
/// torsional stiffness (G·J > 0).
pub fn resolve_end_releases(
    end_cond: [EndCondition; 2],
    torsion_release: [bool; 2],
    has_torsion: bool,
) -> (r: Vec<ReleasedRotation>)
    ensures
        r@ == spec_end_releases(end_cond, torsion_release, has_torsion),
{
    let dofs: [usize; 6] = [3, 4, 5, 9, 10, 11];
    assert(dofs@ =~= rotation_dofs());
    let mut out: Vec<ReleasedRotation> = Vec::new();
    let mut k: usize = 0;
    while k < 6
        invariant
            0 <= k <= 6,
            dofs@ == rotation_dofs(),
            out@ == spec_releases_upto(k as int, end_cond, torsion_release, has_torsion),
        decreases 6 - k,
    {
        let dof = dofs[k];
        let end: usize = if dof < 6 {
            0
        } else {
            1
        };
        let is_torsion = dof == 3 || dof == 9;
        let spring = if is_torsion && !has_torsion {
            None
        } else {
            match end_cond[end] {
                EndCondition::Pinned => Some(ReleaseSpring::Free),
                EndCondition::SemiRigid => Some(ReleaseSpring::SemiRigid),
                EndCondition::Fixed => if is_torsion && torsion_release[end] {
                    Some(ReleaseSpring::Free)
                } else {
                    None
                },
            }
        };
        if let Some(s) = spring {
            out.push(ReleasedRotation { dof, spring: s });
        }
        k += 1;
    }
    out
}

/// Released rotations are distinct rotations of the member, in ascending
/// order, torsion only when the member has torsional stiffness; at most six.
pub proof fn lemma_end_releases_well_formed(
    end_cond: [EndCondition; 2],
    torsion_release: [bool; 2],
    has_torsion: bool,
)
    ensures
        spec_end_releases(end_cond, torsion_release, has_torsion).len() <= 6,
        forall|i: int|
            0 <= i < spec_end_releases(end_cond, torsion_release, has_torsion).len() ==> {
                let r = #[trigger] spec_end_releases(end_cond, torsion_release, has_torsion)[i];
                &&& is_rotation_dof(r.dof as int)
                &&& (is_torsion_dof(r.dof as int) ==> has_torsion)
                &&& spec_release_of(r.dof as int, end_cond, torsion_release, has_torsion) == Some(
                    r.spring,
                )
            },
        forall|i: int, j: int|
            0 <= i < j < spec_end_releases(end_cond, torsion_release, has_torsion).len() ==> (
            #[trigger] spec_end_releases(end_cond, torsion_release, has_torsion)[i]).dof < (
            #[trigger] spec_end_releases(end_cond, torsion_release, has_torsion)[j]).dof,
{
    lemma_releases_upto(6, end_cond, torsion_release, has_torsion);
}

proof fn lemma_releases_upto(
    n: int,
    end_cond: [EndCondition; 2],
    torsion_release: [bool; 2],
    has_torsion: bool,
)
    requires
        0 <= n <= 6,
    ensures
        spec_releases_upto(n, end_cond, torsion_release, has_torsion).len() <= n,
        forall|i: int|
            0 <= i < spec_releases_upto(n, end_cond, torsion_release, has_torsion).len() ==> {
                let r = #[trigger] spec_releases_upto(n, end_cond, torsion_release, has_torsion)[i];
                &&& is_rotation_dof(r.dof as int)
                &&& (is_torsion_dof(r.dof as int) ==> has_torsion)
                &&& spec_release_of(r.dof as int, end_cond, torsion_release, has_torsion) == Some(
                    r.spring,
                )
                &&& (n > 0 ==> r.dof <= rotation_dofs()[n - 1])
            },
        forall|i: int, j: int|
            0 <= i < j < spec_releases_upto(n, end_cond, torsion_release, has_torsion).len() ==> (
            #[trigger] spec_releases_upto(n, end_cond, torsion_release, has_torsion)[i]).dof < (
            #[trigger] spec_releases_upto(n, end_cond, torsion_release, has_torsion)[j]).dof,
    decreases n,
{
    if n > 0 {
        lemma_releases_upto(n - 1, end_cond, torsion_release, has_torsion);
        let rest = spec_releases_upto(n - 1, end_cond, torsion_release, has_torsion);
        assert(forall|i: int| 0 <= i < rest.len() ==> (#[trigger] rest[i]).dof < rotation_dofs()[n
            - 1]) by {
            if n > 1 {
                assert(rotation_dofs()[n - 2] < rotation_dofs()[n - 1]);
            }
        }
    }
}

/// Whether `rel` releases rotation `dof` through `spring`.
pub open spec fn releases_with(rel: Seq<ReleasedRotation>, dof: int, spring: ReleaseSpring) -> bool {
    exists|i: int| 0 <= i < rel.len() && (#[trigger] rel[i]).dof == dof && rel[i].spring == spring
}

/// Whether `rel` releases rotation `dof` at all.
pub open spec fn releases_dof(rel: Seq<ReleasedRotation>, dof: int) -> bool {
    exists|i: int| 0 <= i < rel.len() && (#[trigger] rel[i]).dof == dof
}

proof fn lemma_releases_upto_members(
    n: int,
    end_cond: [EndCondition; 2],
    torsion_release: [bool; 2],
    has_torsion: bool,
)
    requires
        0 <= n <= 6,
    ensures
        forall|m: int|
            0 <= m < n ==> (releases_dof(
                spec_releases_upto(n, end_cond, torsion_release, has_torsion),
                #[trigger] rotation_dofs()[m] as int,
            ) <==> spec_release_of(rotation_dofs()[m] as int, end_cond, torsion_release, has_torsion)
                is Some),
    decreases n,
{
    if n > 0 {
        lemma_releases_upto_members(n - 1, end_cond, torsion_release, has_torsion);
        lemma_releases_upto(n - 1, end_cond, torsion_release, has_torsion);
        let rest = spec_releases_upto(n - 1, end_cond, torsion_release, has_torsion);
        let res = spec_releases_upto(n, end_cond, torsion_release, has_torsion);
        let d = rotation_dofs()[n - 1];
        assert forall|m: int| 0 <= m < n implies (releases_dof(res, #[trigger] rotation_dofs()[m] as int)
            <==> spec_release_of(rotation_dofs()[m] as int, end_cond, torsion_release, has_torsion)
            is Some) by {
            let dm = rotation_dofs()[m];
            if m < n - 1 {
                assert(dm < d);
                if releases_dof(rest, dm as int) {
                    let i = choose|i: int| 0 <= i < rest.len() && (#[trigger] rest[i]).dof == dm;
                    assert(res[i] == rest[i]);
                }
                if releases_dof(res, dm as int) {
                    let i = choose|i: int| 0 <= i < res.len() && (#[trigger] res[i]).dof == dm;
                    assert(i < rest.len());
                    assert(res[i] == rest[i]);
                }
            } else {
                assert(forall|i: int| 0 <= i < rest.len() ==> (#[trigger] rest[i]).dof < d) by {
                    if n > 1 {
                        assert(rotation_dofs()[n - 2] < d);
                    }
                }
                if spec_release_of(d as int, end_cond, torsion_release, has_torsion) is Some {
                    assert(res[rest.len() as int].dof == d);
                } else {
                    assert(res == rest);
                }
            }
        }
    }
}

/// Each end rotation is released by the connection of its own end, the same
/// way at either end: through the end's rotational spring at a semi-rigid
/// end, freely at a pinned end, and at a fixed end only the torsion marked
/// for release, freely. Torsion stays on the node when the member has no
/// torsional stiffness; no rotation is released twice.
pub proof fn lemma_release_follows_end_condition(
    end_cond: [EndCondition; 2],
    torsion_release: [bool; 2],
    has_torsion: bool,
    dof: int,
)
    requires
        3 <= dof < 6 || 9 <= dof < 12,
    ensures
        releases_with(spec_end_releases(end_cond, torsion_release, has_torsion), dof, ReleaseSpring::SemiRigid)
            <==> (end_cond[if dof < 6 { 0int } else { 1int }] == EndCondition::SemiRigid && ((dof
            == 3 || dof == 9) ==> has_torsion)),
        releases_with(spec_end_releases(end_cond, torsion_release, has_torsion), dof, ReleaseSpring::Free)
            <==> ((end_cond[if dof < 6 { 0int } else { 1int }] == EndCondition::Pinned && ((dof
            == 3 || dof == 9) ==> has_torsion)) || (end_cond[if dof < 6 { 0int } else { 1int }]
            == EndCondition::Fixed && (dof == 3 || dof == 9) && torsion_release[if dof < 6 {
            0int
        } else {
            1int
        }] && has_torsion)),
        forall|i: int, j: int|
            0 <= i < j < spec_end_releases(end_cond, torsion_release, has_torsion).len() ==> (
            #[trigger] spec_end_releases(end_cond, torsion_release, has_torsion)[i]).dof != (
            #[trigger] spec_end_releases(end_cond, torsion_release, has_torsion)[j]).dof,
{
    lemma_end_releases_well_formed(end_cond, torsion_release, has_torsion);
    lemma_releases_upto_members(6, end_cond, torsion_release, has_torsion);
    let rel = spec_end_releases(end_cond, torsion_release, has_torsion);
    let m: int = if dof < 6 { dof - 3 } else { dof - 6 };
    assert(rotation_dofs()[m] == dof);
    assert(releases_dof(rel, rotation_dofs()[m] as int) <==> spec_release_of(dof, end_cond, torsion_release, has_torsion) is Some);
    let sp = spec_release_of(dof, end_cond, torsion_release, has_torsion);
    assert forall|s: ReleaseSpring| releases_with(rel, dof, s) <==> sp == Some(s) by {
        if releases_with(rel, dof, s) {
            let i = choose|i: int| 0 <= i < rel.len() && (#[trigger] rel[i]).dof == dof && rel[i].spring == s;
            assert(spec_release_of(rel[i].dof as int, end_cond, torsion_release, has_torsion) == Some(rel[i].spring));
        }
        if sp == Some(s) {
            assert(releases_dof(rel, dof));
            let i = choose|i: int| 0 <= i < rel.len() && (#[trigger] rel[i]).dof == dof;
            assert(spec_release_of(rel[i].dof as int, end_cond, torsion_release, has_torsion) == Some(rel[i].spring));
        }
    }
    assert(releases_with(rel, dof, ReleaseSpring::SemiRigid) <==> sp == Some(ReleaseSpring::SemiRigid));
    assert(releases_with(rel, dof, ReleaseSpring::Free) <==> sp == Some(ReleaseSpring::Free));
}

/// Rigidly connected ends without released torsion release nothing: the
/// member stiffness is used as it is.
pub proof fn lemma_fixed_ends_release_nothing(has_torsion: bool)
    ensures
        spec_end_releases([EndCondition::Fixed, EndCondition::Fixed], [false, false], has_torsion)
            =~= Seq::<ReleasedRotation>::empty(),
{
    reveal_with_fuel(spec_releases_upto, 7);
}

/// A pinned end releases both of its bending rotations, freely.
pub proof fn lemma_pinned_end_releases_bending(
    end_cond: [EndCondition; 2],
    torsion_release: [bool; 2],
    has_torsion: bool,
    dof: int,
)
    requires
        dof == 4 || dof == 5 || dof == 10 || dof == 11,
        end_cond[end_of(dof)] == EndCondition::Pinned,
    ensures
        spec_release_of(dof, end_cond, torsion_release, has_torsion) == Some(ReleaseSpring::Free),
{
}

/// Released degrees of freedom that static condensation accepts: at most
/// the six end rotations, each a local degree of freedom of the member and
/// none twice.
pub open spec fn condensable(dofs: Seq<usize>) -> bool {
    &&& dofs.len() <= 6
    &&& forall|k: int| 0 <= k < dofs.len() ==> #[trigger] dofs[k] < 12
    &&& forall|i: int, j: int| 0 <= i < j < dofs.len() ==> #[trigger] dofs[i] != #[trigger] dofs[j]
}

/// The layout of the expanded system that static condensation solves: the
/// 12 nodal degrees of freedom, followed by one internal degree of freedom
/// per released rotation, in release order. Entry `row` of the result is the
/// internal degree of freedom (12 + k) that takes over released row
/// `dofs[k]`, or `None` for a row that stays on the node.
pub fn condensation_layout(dofs: &Vec<usize>) -> (r: Vec<Option<usize>>)
    requires
        condensable(dofs@),
    ensures
        r@.len() == 12,
        forall|k: int| 0 <= k < dofs@.len() ==> r@[#[trigger] dofs@[k] as int] == Some((12 + k) as usize),
        forall|row: int| 0 <= row < 12 && !dofs@.contains(row as usize) ==> r@[row] is None,
{
    let mut out: Vec<Option<usize>> = Vec::new();
    let mut i: usize = 0;
    while i < 12
        invariant
            0 <= i <= 12,
            out@.len() == i,
            forall|j: int| 0 <= j < i ==> out@[j] is None,
        decreases 12 - i,
    {
        out.push(None);
        i += 1;
    }
    let mut k: usize = 0;
    while k < dofs.len()
        invariant
            0 <= k <= dofs@.len(),
            condensable(dofs@),
            out@.len() == 12,
            forall|j: int| 0 <= j < k ==> out@[#[trigger] dofs@[j] as int] == Some((12 + j) as usize),
            forall|row: int|
                0 <= row < 12 && !dofs@.take(k as int).contains(row as usize) ==> out@[row] is None,
        decreases dofs@.len() - k,
    {
        let row = dofs[k];
        assert(dofs@[k as int] < 12);
        assert forall|j: int| 0 <= j < k implies dofs@[j] != row by {
            assert(dofs@[j] != dofs@[k as int]);
        }
        out.set(row, Some(12 + k));
        assert forall|row2: int|
            0 <= row2 < 12 && !dofs@.take(k + 1).contains(row2 as usize) implies out@[row2] is None by {
            assert(dofs@.take(k + 1)[k as int] == row);
            if dofs@.take(k as int).contains(row2 as usize) {
                let w = choose|w: int| 0 <= w < k && dofs@.take(k as int)[w] == row2 as usize;
                assert(dofs@.take(k + 1)[w] == row2 as usize);
            }
        }
        k += 1;
    }
    assert(dofs@.take(dofs@.len() as int) =~= dofs@);
    out
}

/// The released rotations of a member can always be condensed: they are
/// at most six distinct local degrees of freedom.
pub proof fn lemma_end_releases_condensable(
    end_cond: [EndCondition; 2],
    torsion_release: [bool; 2],
    has_torsion: bool,
)
    ensures
        condensable(
            spec_end_releases(end_cond, torsion_release, has_torsion).map_values(
                |r: ReleasedRotation| r.dof,
            ),
        ),
{
    lemma_end_releases_well_formed(end_cond, torsion_release, has_torsion);
    let rel = spec_end_releases(end_cond, torsion_release, has_torsion);
    let dofs = rel.map_values(|r: ReleasedRotation| r.dof);
    assert forall|k: int| 0 <= k < dofs.len() implies #[trigger] dofs[k] < 12 by {
        assert(is_rotation_dof(rel[k].dof as int));
    }
    assert forall|i: int, j: int| 0 <= i < j < dofs.len() implies #[trigger] dofs[i] != #[trigger] dofs[j] by {
        assert(rel[i].dof < rel[j].dof);
    }
}

/// The local degree of freedom of the hinge rotation at `end` about `axis`
/// (axis 0: curvature about y, rotation ry; axis 1: about z, rotation rz).
pub open spec fn spec_hinge_slot(end: int, axis: int) -> int {
    if end == 0 {
        4 + axis
    } else {
        10 + axis
    }
}

/// The local degree of freedom of the hinge rotation at `end` about `axis`.
pub fn hinge_slot(end: usize, axis: usize) -> (s: usize)
    requires
        end < 2,
        axis < 2,
    ensures
        s == spec_hinge_slot(end as int, axis as int),
{
    if end == 0 {
        4 + axis
    } else {
        10 + axis
    }
}

/// The hinge degrees of freedom `(end, axis)` among the first `n` of
/// `(0,0), (0,1), (1,0), (1,1)`: an end's hinge acts where the end is
/// active and the bending stiffness about that axis is positive.
pub open spec fn spec_hinge_dofs_upto(n: int, active: [bool; 2], stiff: [[bool; 2]; 2]) -> Seq<
    (usize, usize),
>
    decreases n,
{
    if n <= 0 {
        Seq::empty()
    } else {
        let rest = spec_hinge_dofs_upto(n - 1, active, stiff);
        let end = ((n - 1) / 2) as usize;
        let axis = ((n - 1) % 2) as usize;
        if active[end as int] && stiff[end as int][axis as int] {
            rest.push((end, axis))
        } else {
            rest
        }
    }
}

/// The active hinge degrees of freedom `(end, axis)`, end by end: `active`
/// marks the ends that carry a hinge (fixed ends), `stiff[end][axis]` that the
/// end section and the nominal section are stiff about that axis.
pub fn hinge_dofs(active: [bool; 2], stiff: [[bool; 2]; 2]) -> (r: Vec<(usize, usize)>)
    ensures
        r@ == spec_hinge_dofs_upto(4, active, stiff),
{
    let mut out: Vec<(usize, usize)> = Vec::new();
    let mut end: usize = 0;
    while end < 2
        invariant
            0 <= end <= 2,
            out@ == spec_hinge_dofs_upto(2 * end as int, active, stiff),
        decreases 2 - end,
    {
        let mut axis: usize = 0;
        while axis < 2
            invariant
                0 <= end < 2,
                0 <= axis <= 2,
                out@ == spec_hinge_dofs_upto(2 * end + axis, active, stiff),
            decreases 2 - axis,
        {
            assert((2 * end + axis) / 2 == end && (2 * end + axis) % 2 == axis) by (nonlinear_arith)
                requires
                    axis < 2,
            ;
            if active[end] && stiff[end][axis] {
                out.push((end, axis));
            }
            axis += 1;
        }
        end += 1;
    }
    out
}

/// The hinge degrees of freedom are valid `(end, axis)` pairs, each on an
/// active end with stiffness about that axis, and distinct in slot.
pub proof fn lemma_hinge_dofs_well_formed(active: [bool; 2], stiff: [[bool; 2]; 2])
    ensures
        spec_hinge_dofs_upto(4, active, stiff).len() <= 4,
        forall|i: int|
            0 <= i < spec_hinge_dofs_upto(4, active, stiff).len() ==> {
                let (e, a) = #[trigger] spec_hinge_dofs_upto(4, active, stiff)[i];
                e < 2 && a < 2 && active[e as int] && stiff[e as int][a as int]
            },
        forall|i: int, j: int|
            0 <= i < j < spec_hinge_dofs_upto(4, active, stiff).len() ==> spec_hinge_slot(
                (#[trigger] spec_hinge_dofs_upto(4, active, stiff)[i]).0 as int,
                spec_hinge_dofs_upto(4, active, stiff)[i].1 as int,
            ) < spec_hinge_slot(
                (#[trigger] spec_hinge_dofs_upto(4, active, stiff)[j]).0 as int,
                spec_hinge_dofs_upto(4, active, stiff)[j].1 as int,
            ),
{
    lemma_hinge_dofs_upto(4, active, stiff);
}

proof fn lemma_hinge_dofs_upto(n: int, active: [bool; 2], stiff: [[bool; 2]; 2])
    requires
        0 <= n <= 4,
    ensures
        spec_hinge_dofs_upto(n, active, stiff).len() <= n,
        forall|i: int|
            0 <= i < spec_hinge_dofs_upto(n, active, stiff).len() ==> {
                let (e, a) = #[trigger] spec_hinge_dofs_upto(n, active, stiff)[i];
                &&& e < 2 && a < 2 && active[e as int] && stiff[e as int][a as int]
                &&& 2 * e + a < n
            },
        forall|i: int, j: int|
            0 <= i < j < spec_hinge_dofs_upto(n, active, stiff).len() ==> spec_hinge_slot(
                (#[trigger] spec_hinge_dofs_upto(n, active, stiff)[i]).0 as int,
                spec_hinge_dofs_upto(n, active, stiff)[i].1 as int,
            ) < spec_hinge_slot(
                (#[trigger] spec_hinge_dofs_upto(n, active, stiff)[j]).0 as int,
                spec_hinge_dofs_upto(n, active, stiff)[j].1 as int,
            ),
    decreases n,
{
    if n > 0 {
        lemma_hinge_dofs_upto(n - 1, active, stiff);
        assert((n - 1) / 2 == 0 || (n - 1) / 2 == 1);
        assert((n - 1) % 2 == 0 || (n - 1) % 2 == 1);
        assert(2 * ((n - 1) / 2) + (n - 1) % 2 == n - 1);
    }
}

/// `u` with each hinge rotation slot replaced by the beam-side rotation of
/// that hinge (`thb[2 * end + axis]`).
pub open spec fn spec_hinge_uhat<T>(dofs: Seq<(usize, usize)>, thb: [T; 4], u: Seq<T>) -> Seq<T>
    decreases dofs.len(),
{
    if dofs.len() == 0 {
        u
    } else {
        let (e, a) = dofs.last();
        spec_hinge_uhat(dofs.drop_last(), thb, u).update(
            spec_hinge_slot(e as int, a as int),
            thb[2 * e + a],
        )
    }
}

/// The displacement seen by the elastic part of a member with hinges: `u`
/// with the hinge rotation slots taken from `thb`.
pub fn hinge_uhat_from<T: Copy>(dofs: &Vec<(usize, usize)>, thb: &[T; 4], u: &[T; 12]) -> (r: [T; 12])
    requires
        forall|i: int| 0 <= i < dofs@.len() ==> (#[trigger] dofs@[i]).0 < 2 && dofs@[i].1 < 2,
    ensures
        r@ == spec_hinge_uhat(dofs@, *thb, u@),
{
    let mut out = *u;
    let mut k: usize = 0;
    while k < dofs.len()
        invariant
            0 <= k <= dofs@.len(),
            forall|i: int| 0 <= i < dofs@.len() ==> (#[trigger] dofs@[i]).0 < 2 && dofs@[i].1 < 2,
            out@ == spec_hinge_uhat(dofs@.take(k as int), *thb, u@),
        decreases dofs@.len() - k,
    {
        let (e, a) = dofs[k];
        let slot = hinge_slot(e, a);
        out[slot] = thb[2 * e + a];
        assert(dofs@.take(k + 1).drop_last() =~= dofs@.take(k as int));
        k += 1;
    }
    assert(dofs@.take(dofs@.len() as int) =~= dofs@);
    out
}

/// `u` with each released rotation replaced by the internal degree of
/// freedom of that release (`internal[k]` for release `k`).
pub open spec fn spec_with_internal<T>(releases: Seq<ReleasedRotation>, internal: Seq<T>, u: Seq<T>) -> Seq<T>
    decreases releases.len(),
{
    if releases.len() == 0 {
        u
    } else {
        spec_with_internal(releases.drop_last(), internal, u).update(
            releases.last().dof as int,
            internal[releases.len() - 1],
        )
    }
}

/// The member-end displacement: the flexible-part displacement `u_flex` with
/// each released rotation taken from its internal degree of freedom.
pub fn elem_disp<T: Copy>(releases: &Vec<ReleasedRotation>, internal: &Vec<T>, u_flex: &[T; 12]) -> (r: [T; 12])
    requires
        internal@.len() == releases@.len(),
        forall|i: int| 0 <= i < releases@.len() ==> (#[trigger] releases@[i]).dof < 12,
    ensures
        r@ == spec_with_internal(releases@, internal@, u_flex@),
{
    let mut u = *u_flex;
    let mut k: usize = 0;
    while k < releases.len()
        invariant
            0 <= k <= releases@.len(),
            internal@.len() == releases@.len(),
            forall|i: int| 0 <= i < releases@.len() ==> (#[trigger] releases@[i]).dof < 12,
            u@ == spec_with_internal(releases@.take(k as int), internal@, u_flex@),
        decreases releases@.len() - k,
    {
        let dof = releases[k].dof;
        u[dof] = internal[k];
        assert(releases@.take(k + 1).drop_last() =~= releases@.take(k as int));
        assert(releases@.take(k + 1).last() == releases@[k as int]);
        k += 1;
    }
    assert(releases@.take(releases@.len() as int) =~= releases@);
    u
}

} // verus!

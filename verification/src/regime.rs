//! Choice between end springs and fiber sections for a nonlinear member.
use crate::model::ForceRegime;
use vstd::prelude::*;

verus! {

/// The nonlinear model chosen for a member.
#[derive(Clone, Copy, Debug, PartialEq, Eq, Structural)]
pub enum ResolvedRegime {
    /// Concentrated end springs.
    ConcentratedSpring,
    /// Fiber sections.
    Fiber,
}

/// What the choice of a member's regime reads from the model.
pub struct MemberTopology {
    /// The regime specified for the member.
    pub force_regime: ForceRegime,
    /// Whether the axis through the member's first two nodes is vertical;
    /// `None` when the member has fewer than two nodes or names a node that
    /// the model lacks.
    pub axis_vertical: Option<bool>,
    /// For each node of the member, whether it belongs to a rigid diaphragm.
    pub nodes_on_rigid_diaphragm: Vec<bool>,
}

impl MemberTopology {
    pub open spec fn spec_vertical(&self) -> bool {
        self.axis_vertical == Some(true)
    }

    pub open spec fn spec_on_rigid_diaphragm(&self) -> bool {
        exists|i: int| 0 <= i < self.nodes_on_rigid_diaphragm@.len() && #[trigger] self.nodes_on_rigid_diaphragm@[i]
    }
}

/// The regime of a member: an explicit choice stands; `Auto` gives end springs
/// to a member on a rigid diaphragm that is not vertical, fibers otherwise.
pub open spec fn spec_resolve_force_regime(regime: ForceRegime, vertical: bool, on_diaphragm: bool) -> ResolvedRegime {
    match regime {
        ForceRegime::UniaxialBendingShear => ResolvedRegime::ConcentratedSpring,
        ForceRegime::AxialBendingInteract => ResolvedRegime::Fiber,
        ForceRegime::Auto => if on_diaphragm && !vertical {
            ResolvedRegime::ConcentratedSpring
        } else {
            ResolvedRegime::Fiber
        },
    }
}

/// Whether the member is vertical (a column).
pub fn is_vertical_member(t: &MemberTopology) -> (r: bool)
    ensures
        r == t.spec_vertical(),
{
    match t.axis_vertical {
        Some(v) => v,
        None => false,
    }
}

/// Whether some node of the member belongs to a rigid diaphragm.
pub fn is_on_rigid_diaphragm(t: &MemberTopology) -> (r: bool)
    ensures
        r == t.spec_on_rigid_diaphragm(),
{
    let n = t.nodes_on_rigid_diaphragm.len();
    let mut i: usize = 0;
    while i < n
        invariant
            0 <= i <= n,
            n == t.nodes_on_rigid_diaphragm@.len(),
            forall|k: int| 0 <= k < i ==> !t.nodes_on_rigid_diaphragm@[k],
        decreases n - i,
    {
        if t.nodes_on_rigid_diaphragm[i] {
            return true;
        }
        i += 1;
    }
    false
}

/// Resolves the member's regime (see [`spec_resolve_force_regime`]).
pub fn resolve_force_regime(t: &MemberTopology) -> (r: ResolvedRegime)
    ensures
        r == spec_resolve_force_regime(t.force_regime, t.spec_vertical(), t.spec_on_rigid_diaphragm()),
{
    match t.force_regime {
        ForceRegime::UniaxialBendingShear => ResolvedRegime::ConcentratedSpring,
        ForceRegime::AxialBendingInteract => ResolvedRegime::Fiber,
        ForceRegime::Auto => {
            let is_vertical = is_vertical_member(t);
            let on_rigid_diaphragm = is_on_rigid_diaphragm(t);
            if on_rigid_diaphragm && !is_vertical {
                ResolvedRegime::ConcentratedSpring
            } else {
                ResolvedRegime::Fiber
            }
        },
    }
}

/// An explicit regime is never overridden by the member's topology.
pub proof fn lemma_explicit_regime_stands(regime: ForceRegime, vertical: bool, on_diaphragm: bool)
    requires
        regime != ForceRegime::Auto,
    ensures
        spec_resolve_force_regime(regime, vertical, on_diaphragm) == spec_resolve_force_regime(
            regime,
            false,
            false,
        ),
        (regime == ForceRegime::UniaxialBendingShear) == (spec_resolve_force_regime(
            regime,
            vertical,
            on_diaphragm,
        ) == ResolvedRegime::ConcentratedSpring),
{
}

/// A vertical member (column) never gets end springs unless they are asked
/// for explicitly.
pub proof fn lemma_columns_default_to_fibers(regime: ForceRegime, on_diaphragm: bool)
    requires
        regime != ForceRegime::UniaxialBendingShear,
    ensures
        spec_resolve_force_regime(regime, true, on_diaphragm) == ResolvedRegime::Fiber,
{
}

} // verus!

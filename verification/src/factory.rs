//! Which element behaviour is built for an element, for linear and for
//! nonlinear analysis.
//!
//! Linear analysis always builds an elastic member for line members,
//! whatever their regime; only nonlinear analysis chooses end springs or
//! fibers. Walls without a computable shear strength, and all elements
//! without a nonlinear model, get their linear behaviour in nonlinear
//! analysis too.
use crate::hinge_view::spec_resolves_to_concentrated_spring;
use crate::hysteresis::{spec_follows_mn_interaction, follows_mn_interaction, FlexuralSpringLaw};
use crate::model::ElementKind;
use crate::regime::ResolvedRegime;
use vstd::prelude::*;

verus! {

/// The basis of material strengths for member capacities.
#[derive(Clone, Copy, Debug, PartialEq, Eq, Structural)]
pub enum StrengthBasis {
    /// Nominal strengths (time-history analysis and the like).
    Nominal,
    /// Material strengths for the ultimate lateral capacity.
    MaterialStrength,
}

impl Default for StrengthBasis {
    /// Nominal strengths.
    fn default() -> (r: Self)
        ensures
            r == StrengthBasis::Nominal,
    {
        StrengthBasis::Nominal
    }
}

/// How the mass matrix is formed.
#[derive(Clone, Copy, Debug, PartialEq, Eq, Structural)]
pub enum MassOption {
    /// Lumped (diagonal) mass.
    Lumped,
    /// Consistent mass.
    Consistent,
}

/// The spring model of a member with concentrated end springs.
#[derive(Clone, Copy, Debug, PartialEq, Eq, Structural)]
pub enum SpringModel {
    /// One-component model.
    OneComponent,
    /// Two-component model.
    TwoComponent,
}

/// How span loads are carried to the member ends.
#[derive(Clone, Copy, Debug, PartialEq, Eq, Structural)]
pub enum SpanLoadTransfer {
    /// Equivalent nodal forces of the consistent shape functions.
    Consistent,
    /// Statically equivalent end forces, without end moments.
    StaticallyEquivalent,
}

impl Default for SpanLoadTransfer {
    /// Consistent transfer.
    fn default() -> (r: Self)
        ensures
            r == SpanLoadTransfer::Consistent,
    {
        SpanLoadTransfer::Consistent
    }
}

/// The kind of a damper.
#[derive(Clone, Copy, Debug, PartialEq, Eq, Structural)]
pub enum DamperKind {
    /// Maxwell (spring and dashpot in series).
    Maxwell,
    /// Hysteretic bilinear.
    HystereticBilinear,
}

/// The stiffness of a wall: seismic walls carry full stiffness, others a
/// negligible fraction of it.
#[derive(Clone, Copy, Debug, PartialEq, Eq, Structural)]
pub enum WallStiffness {
    /// Seismic wall: full stiffness.
    Full,
    /// Non-seismic wall: stiffness scaled down to a negligible fraction.
    Negligible,
}

/// The element behaviour built for linear analysis.
#[derive(Clone, Copy, Debug, PartialEq, Eq, Structural)]
pub enum LinearBehavior {
    /// Elastic member inside a wall-side column with in-plane release.
    ReleasedSideColumn,
    /// Elastic member joined to joint panels.
    PanelOffsetBeam,
    /// Elastic member.
    ElasticBeam,
    /// Joint panel.
    PanelZone,
    /// Shell.
    Shell,
    /// Wall panel element.
    WallPanel(WallStiffness),
    /// Elastic member standing in for a wall without panel geometry, its
    /// shear areas reduced for openings.
    WallBeam(WallStiffness),
    /// Truss.
    Truss,
    /// Spring between nodes.
    NodalSpring,
    /// Base isolator.
    Isolator,
    /// Maxwell damper.
    MaxwellDamper,
    /// Hysteretic damper.
    HystereticDamper,
}

/// The inner member of a nonlinear `Beam`.
#[derive(Clone, Copy, Debug, PartialEq, Eq, Structural)]
pub enum NonlinearMember {
    /// Member with concentrated end springs; with the N–M interaction when
    /// the spring law follows it.
    SpringBeam {
        /// Whether the N–M interaction is applied.
        mn_interaction: bool,
    },
    /// Fiber member with end plastic zones.
    FiberBeam,
}

/// The element behaviour built for nonlinear analysis.
#[derive(Clone, Copy, Debug, PartialEq, Eq, Structural)]
pub enum NonlinearBehavior {
    /// Elastic member inside a wall-side column with in-plane release.
    ReleasedSideColumn,
    /// A nonlinear `Beam`, joined to joint panels or not.
    Member {
        /// The inner member.
        inner: NonlinearMember,
        /// Whether it is joined to joint panels.
        panel_offset: bool,
    },
    /// Fiber member with end plastic zones (`Fiber` elements).
    FiberBeam,
    /// Multi-spring member.
    MultiSpring,
    /// Truss.
    Truss,
    /// Wall panel with nonlinear shear; with fiber flexure for seismic walls.
    NonlinearWall {
        /// Whether the wall columns carry fiber flexure.
        fiber_flexure: bool,
    },
    /// Nonlinear joint panel.
    NonlinearPanelZone,
    /// The behaviour of linear analysis.
    Linear(LinearBehavior),
}

/// What the choice of behaviour reads of an element.
#[derive(Clone, Copy, Debug, PartialEq, Eq, Structural)]
pub struct BehaviorContext {
    /// The element's kind.
    pub kind: ElementKind,
    /// Whether the element is a wall-side column with in-plane release.
    pub side_column_release: bool,
    /// Whether the member joins a joint panel at either end.
    pub panel_offset: bool,
    /// Whether the wall is seismic.
    pub wall_seismic: bool,
    /// Whether the wall's panel geometry is available.
    pub wall_panel_available: bool,
    /// Whether the wall's in-plane shear strength is positive.
    pub wall_shear_capacity_positive: bool,
    /// The damper's kind.
    pub damper: DamperKind,
    /// The member's resolved regime.
    pub regime: ResolvedRegime,
    /// The law of the member's end springs.
    pub spring_law: FlexuralSpringLaw,
}

pub open spec fn spec_wall_stiffness(seismic: bool) -> WallStiffness {
    if seismic {
        WallStiffness::Full
    } else {
        WallStiffness::Negligible
    }
}

pub open spec fn spec_linear_behavior(c: BehaviorContext) -> LinearBehavior {
    match c.kind {
        ElementKind::Beam => if c.side_column_release {
            LinearBehavior::ReleasedSideColumn
        } else if c.panel_offset {
            LinearBehavior::PanelOffsetBeam
        } else {
            LinearBehavior::ElasticBeam
        },
        ElementKind::PanelZone => LinearBehavior::PanelZone,
        ElementKind::Shell => LinearBehavior::Shell,
        ElementKind::MultiSpring => LinearBehavior::ElasticBeam,
        ElementKind::Fiber => LinearBehavior::ElasticBeam,
        ElementKind::Wall => if c.wall_panel_available {
            LinearBehavior::WallPanel(spec_wall_stiffness(c.wall_seismic))
        } else {
            LinearBehavior::WallBeam(spec_wall_stiffness(c.wall_seismic))
        },
        ElementKind::Brace => LinearBehavior::Truss,
        ElementKind::NodalSpring => LinearBehavior::NodalSpring,
        ElementKind::Isolator => LinearBehavior::Isolator,
        ElementKind::Damper => match c.damper {
            DamperKind::Maxwell => LinearBehavior::MaxwellDamper,
            DamperKind::HystereticBilinear => LinearBehavior::HystereticDamper,
        },
    }
}

fn wall_stiffness(seismic: bool) -> (r: WallStiffness)
    ensures
        r == spec_wall_stiffness(seismic),
{
    if seismic {
        WallStiffness::Full
    } else {
        WallStiffness::Negligible
    }
}

/// The behaviour built for linear analysis (see [`spec_linear_behavior`]).
pub fn build_behavior(c: &BehaviorContext) -> (r: LinearBehavior)
    ensures
        r == spec_linear_behavior(*c),
{
    match c.kind {
        ElementKind::Beam => {
            if c.side_column_release {
                LinearBehavior::ReleasedSideColumn
            } else if c.panel_offset {
                LinearBehavior::PanelOffsetBeam
            } else {
                LinearBehavior::ElasticBeam
            }
        },
        ElementKind::PanelZone => LinearBehavior::PanelZone,
        ElementKind::Shell => LinearBehavior::Shell,
        ElementKind::MultiSpring => LinearBehavior::ElasticBeam,
        ElementKind::Fiber => LinearBehavior::ElasticBeam,
        ElementKind::Wall => {
            let stiffness = wall_stiffness(c.wall_seismic);
            if c.wall_panel_available {
                LinearBehavior::WallPanel(stiffness)
            } else {
                LinearBehavior::WallBeam(stiffness)
            }
        },
        ElementKind::Brace => LinearBehavior::Truss,
        ElementKind::NodalSpring => LinearBehavior::NodalSpring,
        ElementKind::Isolator => LinearBehavior::Isolator,
        ElementKind::Damper => match c.damper {
            DamperKind::Maxwell => LinearBehavior::MaxwellDamper,
            DamperKind::HystereticBilinear => LinearBehavior::HystereticDamper,
        },
    }
}

pub open spec fn spec_nonlinear_behavior(c: BehaviorContext) -> NonlinearBehavior {
    match c.kind {
        ElementKind::Beam => if c.side_column_release {
            NonlinearBehavior::ReleasedSideColumn
        } else {
            let inner = match c.regime {
                ResolvedRegime::ConcentratedSpring => NonlinearMember::SpringBeam {
                    mn_interaction: spec_follows_mn_interaction(c.spring_law),
                },
                ResolvedRegime::Fiber => NonlinearMember::FiberBeam,
            };
            NonlinearBehavior::Member { inner, panel_offset: c.panel_offset }
        },
        ElementKind::Fiber => NonlinearBehavior::FiberBeam,
        ElementKind::MultiSpring => NonlinearBehavior::MultiSpring,
        ElementKind::Brace => NonlinearBehavior::Truss,
        ElementKind::Wall => if !c.wall_shear_capacity_positive || !c.wall_panel_available {
            NonlinearBehavior::Linear(spec_linear_behavior(c))
        } else {
            NonlinearBehavior::NonlinearWall { fiber_flexure: c.wall_seismic }
        },
        ElementKind::PanelZone => NonlinearBehavior::NonlinearPanelZone,
        _ => NonlinearBehavior::Linear(spec_linear_behavior(c)),
    }
}

/// The behaviour built for nonlinear analysis (see
/// [`spec_nonlinear_behavior`]).
pub fn build_nonlinear_behavior(c: &BehaviorContext) -> (r: NonlinearBehavior)
    ensures
        r == spec_nonlinear_behavior(*c),
{
    match c.kind {
        ElementKind::Beam => {
            if c.side_column_release {
                return NonlinearBehavior::ReleasedSideColumn;
            }
            let inner = match c.regime {
                ResolvedRegime::ConcentratedSpring => NonlinearMember::SpringBeam {
                    mn_interaction: follows_mn_interaction(c.spring_law),
                },
                ResolvedRegime::Fiber => NonlinearMember::FiberBeam,
            };
            NonlinearBehavior::Member { inner, panel_offset: c.panel_offset }
        },
        ElementKind::Fiber => NonlinearBehavior::FiberBeam,
        ElementKind::MultiSpring => NonlinearBehavior::MultiSpring,
        ElementKind::Brace => NonlinearBehavior::Truss,
        ElementKind::Wall => {
            if !c.wall_shear_capacity_positive || !c.wall_panel_available {
                return NonlinearBehavior::Linear(build_behavior(c));
            }
            NonlinearBehavior::NonlinearWall { fiber_flexure: c.wall_seismic }
        },
        ElementKind::PanelZone => NonlinearBehavior::NonlinearPanelZone,
        _ => NonlinearBehavior::Linear(build_behavior(c)),
    }
}

/// Linear analysis builds the same behaviour whatever a member's regime and
/// spring law: line members are always elastic there.
pub proof fn lemma_linear_behavior_ignores_regime(
    c: BehaviorContext,
    regime: ResolvedRegime,
    spring_law: FlexuralSpringLaw,
)
    ensures
        spec_linear_behavior(BehaviorContext { regime, spring_law, ..c }) == spec_linear_behavior(
            c,
        ),
        (c.kind == ElementKind::Fiber || c.kind == ElementKind::MultiSpring) ==> spec_linear_behavior(
            c,
        ) == LinearBehavior::ElasticBeam,
{
}

/// The nonlinear analysis builds end springs for a `Beam` exactly when the
/// hinge view shows end springs for it.
pub proof fn lemma_spring_beam_iff_view_branch(c: BehaviorContext)
    ensures
        (spec_nonlinear_behavior(c) matches NonlinearBehavior::Member {
            inner: NonlinearMember::SpringBeam { .. },
            ..
        }) == spec_resolves_to_concentrated_spring(c.kind, c.side_column_release, c.regime),
{
}

/// A wall's stiffness in linear analysis is full exactly when the wall is
/// seismic, whether it is built as a wall panel (when its panel geometry is
/// available) or as a member; a non-seismic wall's stiffness is negligible.
/// In nonlinear analysis a seismic wall with panel geometry and a positive
/// shear strength carries fiber flexure.
pub proof fn lemma_wall_stiffness_follows_seismicity(c: BehaviorContext)
    requires
        c.kind == ElementKind::Wall,
    ensures
        c.wall_seismic ==> (spec_linear_behavior(c) == LinearBehavior::WallPanel(WallStiffness::Full)
            || spec_linear_behavior(c) == LinearBehavior::WallBeam(WallStiffness::Full)),
        !c.wall_seismic ==> (spec_linear_behavior(c) == LinearBehavior::WallPanel(
            WallStiffness::Negligible,
        ) || spec_linear_behavior(c) == LinearBehavior::WallBeam(WallStiffness::Negligible)),
        (spec_linear_behavior(c) is WallPanel) == c.wall_panel_available,
        (c.wall_panel_available && c.wall_shear_capacity_positive) ==> spec_nonlinear_behavior(c)
            == (NonlinearBehavior::NonlinearWall { fiber_flexure: c.wall_seismic }),
{
}

} // verus!

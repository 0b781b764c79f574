//! Resolution of hysteresis rules and the choice of end-spring and fiber
//! material laws that follows from them.
use crate::model::{AnalysisKind, HysteresisModel};
use vstd::prelude::*;

verus! {

/// The hysteresis rules specified for one member: one slot for incremental
/// analysis and one for time-history analysis.
#[derive(Clone, Copy, Debug, PartialEq, Eq, Structural)]
pub struct HysteresisSlots {
    /// Rule for incremental analysis.
    pub incremental: Option<HysteresisModel>,
    /// Rule for time-history analysis; when absent the incremental rule
    /// applies to time-history analysis as well.
    pub time_history: Option<HysteresisModel>,
}

/// The rule specified for `kind`; a time-history analysis without its own
/// rule follows the incremental one.
pub open spec fn spec_specified_hysteresis(slots: HysteresisSlots, kind: AnalysisKind) -> Option<HysteresisModel> {
    match kind {
        AnalysisKind::Incremental => slots.incremental,
        AnalysisKind::TimeHistory => match slots.time_history {
            Some(r) => Some(r),
            None => slots.incremental,
        },
    }
}

/// The rule specified for `kind` (see [`spec_specified_hysteresis`]).
pub fn specified_hysteresis(slots: &HysteresisSlots, kind: AnalysisKind) -> (r: Option<HysteresisModel>)
    ensures
        r == spec_specified_hysteresis(*slots, kind),
{
    match kind {
        AnalysisKind::Incremental => slots.incremental,
        AnalysisKind::TimeHistory => match slots.time_history {
            Some(r) => Some(r),
            None => slots.incremental,
        },
    }
}

/// The end-spring rule of a member that specifies none: Takeda for a
/// concrete-like section, bilinear otherwise.
pub open spec fn spec_default_member_hysteresis(rc_like: bool) -> HysteresisModel {
    if rc_like {
        HysteresisModel::Takeda
    } else {
        HysteresisModel::Standard
    }
}

/// The end-spring rule of a member that specifies none.
pub fn default_member_hysteresis(rc_like: bool) -> (r: HysteresisModel)
    ensures
        r == spec_default_member_hysteresis(rc_like),
{
    if rc_like {
        HysteresisModel::Takeda
    } else {
        HysteresisModel::Standard
    }
}

/// The concrete unloading rule of fiber and multi-spring sections that
/// specify none: retrograde for incremental, Karsan–Jirsa for time-history
/// analysis.
pub open spec fn spec_default_fiber_concrete_hysteresis(kind: AnalysisKind) -> HysteresisModel {
    match kind {
        AnalysisKind::Incremental => HysteresisModel::Retrograde,
        AnalysisKind::TimeHistory => HysteresisModel::KarsanJirsa,
    }
}

/// The concrete unloading rule of fiber sections that specify none.
pub fn default_fiber_concrete_hysteresis(kind: AnalysisKind) -> (r: HysteresisModel)
    ensures
        r == spec_default_fiber_concrete_hysteresis(kind),
{
    match kind {
        AnalysisKind::Incremental => HysteresisModel::Retrograde,
        AnalysisKind::TimeHistory => HysteresisModel::KarsanJirsa,
    }
}

/// Whether `r` can serve as an unloading rule of concrete fibers.
pub open spec fn is_concrete_rule(r: HysteresisModel) -> bool {
    r == HysteresisModel::Retrograde || r == HysteresisModel::OriginOriented || r
        == HysteresisModel::KarsanJirsa
}

/// Whether `r` can serve as the rule of a wall's in-plane shear spring.
pub open spec fn is_wall_shear_rule(r: HysteresisModel) -> bool {
    r == HysteresisModel::Retrograde || r == HysteresisModel::Standard || r
        == HysteresisModel::OriginOriented || r == HysteresisModel::MaxPointOriented || r
        == HysteresisModel::Takeda
}

pub open spec fn spec_resolve_member_hysteresis(slots: HysteresisSlots, kind: AnalysisKind, rc_like: bool) -> HysteresisModel {
    match spec_specified_hysteresis(slots, kind) {
        Some(r) => if r != HysteresisModel::Auto {
            r
        } else {
            spec_default_member_hysteresis(rc_like)
        },
        None => spec_default_member_hysteresis(rc_like),
    }
}

/// The end-spring rule of a member: the specified rule unless it is absent
/// or `Auto`, else the default for the section (`rc_like`: the section is
/// concrete-like).
pub fn resolve_member_hysteresis(slots: &HysteresisSlots, kind: AnalysisKind, rc_like: bool) -> (r: HysteresisModel)
    ensures
        r == spec_resolve_member_hysteresis(*slots, kind, rc_like),
        r != HysteresisModel::Auto,
{
    match specified_hysteresis(slots, kind) {
        Some(r) if r != HysteresisModel::Auto => r,
        _ => default_member_hysteresis(rc_like),
    }
}

pub open spec fn spec_resolve_fiber_concrete_hysteresis(slots: HysteresisSlots, kind: AnalysisKind) -> HysteresisModel {
    match spec_specified_hysteresis(slots, kind) {
        Some(r) => if is_concrete_rule(r) {
            r
        } else {
            spec_default_fiber_concrete_hysteresis(kind)
        },
        None => spec_default_fiber_concrete_hysteresis(kind),
    }
}

/// The concrete unloading rule of a fiber or multi-spring member: the
/// specified rule when it is a concrete rule, else the default for `kind`.
pub fn resolve_fiber_concrete_hysteresis(slots: &HysteresisSlots, kind: AnalysisKind) -> (r: HysteresisModel)
    ensures
        r == spec_resolve_fiber_concrete_hysteresis(*slots, kind),
        is_concrete_rule(r),
{
    match specified_hysteresis(slots, kind) {
        Some(r) if r == HysteresisModel::Retrograde || r == HysteresisModel::OriginOriented || r
            == HysteresisModel::KarsanJirsa => r,
        _ => default_fiber_concrete_hysteresis(kind),
    }
}

pub open spec fn spec_default_wall_concrete_hysteresis(kind: AnalysisKind) -> HysteresisModel {
    match kind {
        AnalysisKind::Incremental => HysteresisModel::OriginOriented,
        AnalysisKind::TimeHistory => HysteresisModel::KarsanJirsa,
    }
}

pub open spec fn spec_resolve_wall_concrete_hysteresis(slots: HysteresisSlots, kind: AnalysisKind) -> HysteresisModel {
    match spec_specified_hysteresis(slots, kind) {
        Some(r) => if is_concrete_rule(r) {
            r
        } else {
            spec_default_wall_concrete_hysteresis(kind)
        },
        None => spec_default_wall_concrete_hysteresis(kind),
    }
}

/// The concrete unloading rule of a wall's column fibers: the specified rule
/// when it is a concrete rule, else origin-oriented for incremental and
/// Karsan–Jirsa for time-history analysis.
pub fn resolve_wall_concrete_hysteresis(slots: &HysteresisSlots, kind: AnalysisKind) -> (r: HysteresisModel)
    ensures
        r == spec_resolve_wall_concrete_hysteresis(*slots, kind),
        is_concrete_rule(r),
{
    match specified_hysteresis(slots, kind) {
        Some(r) if r == HysteresisModel::Retrograde || r == HysteresisModel::OriginOriented || r
            == HysteresisModel::KarsanJirsa => r,
        _ => match kind {
            AnalysisKind::Incremental => HysteresisModel::OriginOriented,
            AnalysisKind::TimeHistory => HysteresisModel::KarsanJirsa,
        },
    }
}

pub open spec fn spec_resolve_wall_shear_hysteresis(slots: HysteresisSlots, kind: AnalysisKind) -> HysteresisModel {
    match spec_specified_hysteresis(slots, kind) {
        Some(r) => if is_wall_shear_rule(r) {
            r
        } else {
            HysteresisModel::MaxPointOriented
        },
        None => HysteresisModel::MaxPointOriented,
    }
}

/// The rule of a wall's in-plane shear spring: the specified rule when it is
/// a force–displacement rule, else maximum-point-oriented.
pub fn resolve_wall_shear_hysteresis(slots: &HysteresisSlots, kind: AnalysisKind) -> (r: HysteresisModel)
    ensures
        r == spec_resolve_wall_shear_hysteresis(*slots, kind),
        is_wall_shear_rule(r),
{
    match specified_hysteresis(slots, kind) {
        Some(r) if r == HysteresisModel::Retrograde || r == HysteresisModel::Standard || r
            == HysteresisModel::OriginOriented || r == HysteresisModel::MaxPointOriented || r
            == HysteresisModel::Takeda => r,
        _ => HysteresisModel::MaxPointOriented,
    }
}

/// The material law of a member-end bending spring.
#[derive(Clone, Copy, Debug, PartialEq, Eq, Structural)]
pub enum FlexuralSpringLaw {
    /// Bilinear, post-yield stiffness 1 % of the initial.
    Bilinear,
    /// Tsuji–Yamada.
    TsujiYamada,
    /// Steel with local buckling.
    SteelBuckling,
    /// Retrograde trilinear.
    Retrograde,
    /// Origin-oriented bilinear.
    OriginOriented,
    /// Maximum-point-oriented trilinear.
    MaxPointOriented,
    /// Takeda trilinear.
    Takeda,
}

pub open spec fn spec_flexural_spring_law(rule: HysteresisModel, degenerate: bool) -> FlexuralSpringLaw {
    if degenerate || rule == HysteresisModel::Standard {
        FlexuralSpringLaw::Bilinear
    } else {
        match rule {
            HysteresisModel::TsujiYamada => FlexuralSpringLaw::TsujiYamada,
            HysteresisModel::SteelBuckling => FlexuralSpringLaw::SteelBuckling,
            HysteresisModel::Retrograde => FlexuralSpringLaw::Retrograde,
            HysteresisModel::OriginOriented => FlexuralSpringLaw::OriginOriented,
            HysteresisModel::MaxPointOriented => FlexuralSpringLaw::MaxPointOriented,
            _ => FlexuralSpringLaw::Takeda,
        }
    }
}

/// The material law of the end springs for `rule`. `degenerate` says that
/// the yield moment or the initial rotational stiffness is not positive; such
/// a spring, and any spring under the standard rule, is bilinear. Rules that
/// have no spring law of their own give Takeda springs.
pub fn flexural_spring_law(rule: HysteresisModel, degenerate: bool) -> (r: FlexuralSpringLaw)
    ensures
        r == spec_flexural_spring_law(rule, degenerate),
{
    if degenerate || rule == HysteresisModel::Standard {
        return FlexuralSpringLaw::Bilinear;
    }
    match rule {
        HysteresisModel::TsujiYamada => FlexuralSpringLaw::TsujiYamada,
        HysteresisModel::SteelBuckling => FlexuralSpringLaw::SteelBuckling,
        HysteresisModel::Retrograde => FlexuralSpringLaw::Retrograde,
        HysteresisModel::OriginOriented => FlexuralSpringLaw::OriginOriented,
        HysteresisModel::MaxPointOriented => FlexuralSpringLaw::MaxPointOriented,
        _ => FlexuralSpringLaw::Takeda,
    }
}

pub open spec fn spec_follows_mn_interaction(law: FlexuralSpringLaw) -> bool {
    law == FlexuralSpringLaw::Bilinear || law == FlexuralSpringLaw::TsujiYamada || law
        == FlexuralSpringLaw::SteelBuckling
}

/// Whether springs of this law take an axial-force dependent yield moment
/// (N–M interaction); the trilinear history laws do not.
pub fn follows_mn_interaction(law: FlexuralSpringLaw) -> (r: bool)
    ensures
        r == spec_follows_mn_interaction(law),
{
    match law {
        FlexuralSpringLaw::Bilinear | FlexuralSpringLaw::TsujiYamada
        | FlexuralSpringLaw::SteelBuckling => true,
        _ => false,
    }
}

/// How a spring's backbone is redrawn for a given axial force.
#[derive(Clone, Copy, Debug, PartialEq, Eq, Structural)]
pub enum MnBackbone {
    /// The backbone without interaction.
    Unchanged,
    /// The bilinear corners rebuilt with the reduced yield moment.
    RebuiltBilinear,
    /// The buckling skeleton of the material with the reduced yield moment.
    BucklingSkeleton,
}

pub open spec fn spec_mn_backbone(law: FlexuralSpringLaw, interaction: bool, k_rot_positive: bool) -> MnBackbone {
    if !interaction || !spec_follows_mn_interaction(law) {
        MnBackbone::Unchanged
    } else {
        match law {
            FlexuralSpringLaw::SteelBuckling => MnBackbone::BucklingSkeleton,
            _ => if k_rot_positive {
                MnBackbone::RebuiltBilinear
            } else {
                MnBackbone::Unchanged
            },
        }
    }
}

/// How the backbone of springs of `law` is drawn for an axial force, given
/// whether an N–M interaction is given (`interaction`) and whether the
/// initial rotational stiffness is positive.
pub fn mn_backbone(law: FlexuralSpringLaw, interaction: bool, k_rot_positive: bool) -> (r: MnBackbone)
    ensures
        r == spec_mn_backbone(law, interaction, k_rot_positive),
{
    if !interaction || !follows_mn_interaction(law) {
        return MnBackbone::Unchanged;
    }
    match law {
        FlexuralSpringLaw::SteelBuckling => MnBackbone::BucklingSkeleton,
        _ => if k_rot_positive {
            MnBackbone::RebuiltBilinear
        } else {
            MnBackbone::Unchanged
        },
    }
}

/// The material law of a concrete fiber.
#[derive(Clone, Copy, Debug, PartialEq, Eq, Structural)]
pub enum ConcreteFiberLaw {
    /// Cyclic concrete on the NewRC envelope (Karsan–Jirsa, Fc ≤ 60).
    CyclicNewRc,
    /// Cyclic concrete on the Kent–Park envelope (Karsan–Jirsa, Fc > 60).
    CyclicKentPark,
    /// NewRC envelope with retrograde or origin-oriented unloading (Fc ≤ 60).
    NewRc {
        /// Unloading toward the origin (else retrograde).
        origin_oriented: bool,
    },
    /// Parabolic concrete (Fc > 60).
    Parabolic,
}

pub open spec fn spec_concrete_fiber_law(rule: HysteresisModel, normal_strength: bool) -> ConcreteFiberLaw {
    if rule == HysteresisModel::KarsanJirsa {
        if normal_strength {
            ConcreteFiberLaw::CyclicNewRc
        } else {
            ConcreteFiberLaw::CyclicKentPark
        }
    } else if normal_strength {
        ConcreteFiberLaw::NewRc { origin_oriented: rule == HysteresisModel::OriginOriented }
    } else {
        ConcreteFiberLaw::Parabolic
    }
}

/// The law of a concrete fiber under unloading rule `rule`;
/// `normal_strength` says that Fc ≤ 60 N/mm². Only concrete rules
/// (retrograde, origin-oriented, Karsan–Jirsa) describe concrete fibers.
pub fn concrete_fiber_law(rule: HysteresisModel, normal_strength: bool) -> (r: ConcreteFiberLaw)
    requires
        is_concrete_rule(rule),
    ensures
        r == spec_concrete_fiber_law(rule, normal_strength),
{
    if rule == HysteresisModel::KarsanJirsa {
        if normal_strength {
            ConcreteFiberLaw::CyclicNewRc
        } else {
            ConcreteFiberLaw::CyclicKentPark
        }
    } else if normal_strength {
        ConcreteFiberLaw::NewRc { origin_oriented: rule == HysteresisModel::OriginOriented }
    } else {
        ConcreteFiberLaw::Parabolic
    }
}

/// A time-history rule applies only to time-history analysis: the rule for
/// incremental analysis is the same with or without it.
pub proof fn lemma_time_history_slot_only_affects_time_history(
    slots: HysteresisSlots,
    th: Option<HysteresisModel>,
    rc_like: bool,
)
    ensures
        spec_resolve_member_hysteresis(
            HysteresisSlots { time_history: th, ..slots },
            AnalysisKind::Incremental,
            rc_like,
        ) == spec_resolve_member_hysteresis(slots, AnalysisKind::Incremental, rc_like),
        spec_resolve_fiber_concrete_hysteresis(
            HysteresisSlots { time_history: th, ..slots },
            AnalysisKind::Incremental,
        ) == spec_resolve_fiber_concrete_hysteresis(slots, AnalysisKind::Incremental),
        spec_resolve_wall_concrete_hysteresis(
            HysteresisSlots { time_history: th, ..slots },
            AnalysisKind::Incremental,
        ) == spec_resolve_wall_concrete_hysteresis(slots, AnalysisKind::Incremental),
        spec_resolve_wall_shear_hysteresis(
            HysteresisSlots { time_history: th, ..slots },
            AnalysisKind::Incremental,
        ) == spec_resolve_wall_shear_hysteresis(slots, AnalysisKind::Incremental),
{
}

/// Without a time-history rule, time-history analysis resolves every rule as
/// incremental analysis does, except where the defaults differ by analysis
/// kind: end springs always agree.
pub proof fn lemma_time_history_follows_incremental(inc: Option<HysteresisModel>, rc_like: bool)
    ensures
        spec_resolve_member_hysteresis(
            HysteresisSlots { incremental: inc, time_history: None },
            AnalysisKind::TimeHistory,
            rc_like,
        ) == spec_resolve_member_hysteresis(
            HysteresisSlots { incremental: inc, time_history: None },
            AnalysisKind::Incremental,
            rc_like,
        ),
        spec_resolve_wall_shear_hysteresis(
            HysteresisSlots { incremental: inc, time_history: None },
            AnalysisKind::TimeHistory,
        ) == spec_resolve_wall_shear_hysteresis(
            HysteresisSlots { incremental: inc, time_history: None },
            AnalysisKind::Incremental,
        ),
{
}

/// The rule resolved for concrete fibers always selects a concrete fiber law:
/// resolving and then building a concrete fiber never fails.
pub proof fn lemma_resolved_concrete_rule_has_fiber_law(slots: HysteresisSlots, kind: AnalysisKind)
    ensures
        is_concrete_rule(spec_resolve_fiber_concrete_hysteresis(slots, kind)),
        is_concrete_rule(spec_resolve_wall_concrete_hysteresis(slots, kind)),
{
}

/// The rule a wall's shear spring takes: the rule specified for the analysis
/// (the time-history slot in a time-history analysis when it is set, else
/// the incremental slot) stands whenever it is a force–displacement rule
/// (retrograde, standard, origin-oriented, maximum-point-oriented or Takeda);
/// any other rule, or none, gives maximum-point-oriented.
pub proof fn lemma_specified_wall_shear_rule_stands(
    slots: HysteresisSlots,
    kind: AnalysisKind,
    r: HysteresisModel,
)
    ensures
        ((if kind == AnalysisKind::TimeHistory && slots.time_history is Some {
            slots.time_history
        } else {
            slots.incremental
        }) == Some(r) && (r == HysteresisModel::Retrograde || r == HysteresisModel::Standard || r
            == HysteresisModel::OriginOriented || r == HysteresisModel::MaxPointOriented || r
            == HysteresisModel::Takeda)) ==> spec_resolve_wall_shear_hysteresis(slots, kind) == r,
        ((if kind == AnalysisKind::TimeHistory && slots.time_history is Some {
            slots.time_history
        } else {
            slots.incremental
        }) == Some(r) && (r == HysteresisModel::Auto || r == HysteresisModel::TsujiYamada || r
            == HysteresisModel::SteelBuckling || r == HysteresisModel::KarsanJirsa))
            ==> spec_resolve_wall_shear_hysteresis(slots, kind) == HysteresisModel::MaxPointOriented,
        (if kind == AnalysisKind::TimeHistory && slots.time_history is Some {
            slots.time_history
        } else {
            slots.incremental
        }) is None ==> spec_resolve_wall_shear_hysteresis(slots, kind)
            == HysteresisModel::MaxPointOriented,
{
}

} // verus!

//! Which nonlinear characteristics the analysis uses for an element, so that
//! the hinge view draws the backbone or N–M surface of the same model.
use crate::hysteresis::{spec_follows_mn_interaction, follows_mn_interaction, FlexuralSpringLaw};
use crate::model::ElementKind;
use crate::regime::ResolvedRegime;
use vstd::prelude::*;

verus! {

/// The nonlinear model the analysis uses for an element.
#[derive(Clone, Copy, Debug, PartialEq, Eq, Structural)]
pub enum AnalysisHingeModel {
    /// Concentrated end springs (M–θ backbone and linear N–M interaction).
    ConcentratedSpring,
    /// Fiber member (N–M surface).
    Fiber,
    /// Multi-spring member (N–M surface).
    MultiSpring,
    /// No nonlinear hinge model (linear, brace, wall and others).
    Other,
}

/// What the hinge view of an element shows.
#[derive(Clone, Copy, Debug, PartialEq, Eq, Structural)]
pub enum HingeViewPlan {
    /// Nothing to draw for an element of this model.
    Empty(AnalysisHingeModel),
    /// The end springs' M–θ backbone; with the linear N–M interaction when
    /// the spring law follows it.
    SpringBackbone {
        /// Whether the linear N–M interaction is drawn.
        mn_linear: bool,
    },
    /// The N–M surface of the analysis' end fiber section, when the fibers
    /// can be built and there are any (else nothing is drawn).
    Surface(AnalysisHingeModel),
}

/// What the hinge view reads of an element.
#[derive(Clone, Copy, Debug, PartialEq, Eq, Structural)]
pub struct HingeViewContext {
    /// The element's kind.
    pub kind: ElementKind,
    /// Whether the element is a wall-side column with in-plane release.
    pub side_column_release: bool,
    /// The element's resolved regime.
    pub regime: ResolvedRegime,
    /// Whether the member's inputs have a strength issue.
    pub strength_issue: bool,
    /// The law of the member's end springs.
    pub spring_law: FlexuralSpringLaw,
}

pub open spec fn spec_resolves_to_concentrated_spring(
    kind: ElementKind,
    side_column_release: bool,
    regime: ResolvedRegime,
) -> bool {
    kind == ElementKind::Beam && !side_column_release && regime == ResolvedRegime::ConcentratedSpring
}

/// Whether the hinge view of the element takes the end-spring branch: a
/// `Beam` without wall-side release whose regime is end springs.
pub fn resolves_to_concentrated_spring(
    kind: ElementKind,
    side_column_release: bool,
    regime: ResolvedRegime,
) -> (r: bool)
    ensures
        r == spec_resolves_to_concentrated_spring(kind, side_column_release, regime),
{
    kind == ElementKind::Beam && !side_column_release && regime == ResolvedRegime::ConcentratedSpring
}

pub open spec fn spec_hinge_view_plan(c: HingeViewContext) -> HingeViewPlan {
    match c.kind {
        ElementKind::Beam => if spec_resolves_to_concentrated_spring(
            c.kind,
            c.side_column_release,
            c.regime,
        ) {
            if c.strength_issue {
                HingeViewPlan::Empty(AnalysisHingeModel::ConcentratedSpring)
            } else {
                HingeViewPlan::SpringBackbone {
                    mn_linear: spec_follows_mn_interaction(c.spring_law),
                }
            }
        } else if c.side_column_release {
            HingeViewPlan::Empty(AnalysisHingeModel::Other)
        } else {
            HingeViewPlan::Surface(AnalysisHingeModel::Fiber)
        },
        ElementKind::Fiber => HingeViewPlan::Surface(AnalysisHingeModel::Fiber),
        ElementKind::MultiSpring => HingeViewPlan::Surface(AnalysisHingeModel::MultiSpring),
        _ => HingeViewPlan::Empty(AnalysisHingeModel::Other),
    }
}

/// What the hinge view of an element shows (see [`spec_hinge_view_plan`]):
/// `Beam` follows its regime, a member with a strength issue shows nothing,
/// fiber and multi-spring members show their N–M surface, other elements
/// have no hinge.
pub fn hinge_view_plan(c: &HingeViewContext) -> (r: HingeViewPlan)
    ensures
        r == spec_hinge_view_plan(*c),
{
    match c.kind {
        ElementKind::Beam => {
            if resolves_to_concentrated_spring(c.kind, c.side_column_release, c.regime) {
                if c.strength_issue {
                    HingeViewPlan::Empty(AnalysisHingeModel::ConcentratedSpring)
                } else {
                    HingeViewPlan::SpringBackbone { mn_linear: follows_mn_interaction(c.spring_law) }
                }
            } else if c.side_column_release {
                HingeViewPlan::Empty(AnalysisHingeModel::Other)
            } else {
                HingeViewPlan::Surface(AnalysisHingeModel::Fiber)
            }
        },
        ElementKind::Fiber => HingeViewPlan::Surface(AnalysisHingeModel::Fiber),
        ElementKind::MultiSpring => HingeViewPlan::Surface(AnalysisHingeModel::MultiSpring),
        _ => HingeViewPlan::Empty(AnalysisHingeModel::Other),
    }
}

pub open spec fn spec_plan_model(p: HingeViewPlan) -> AnalysisHingeModel {
    match p {
        HingeViewPlan::Empty(m) => m,
        HingeViewPlan::SpringBackbone { .. } => AnalysisHingeModel::ConcentratedSpring,
        HingeViewPlan::Surface(m) => m,
    }
}

/// The model that a view plan reports.
pub fn plan_model(p: HingeViewPlan) -> (m: AnalysisHingeModel)
    ensures
        m == spec_plan_model(p),
{
    match p {
        HingeViewPlan::Empty(m) => m,
        HingeViewPlan::SpringBackbone { .. } => AnalysisHingeModel::ConcentratedSpring,
        HingeViewPlan::Surface(m) => m,
    }
}

/// The view reports end springs exactly when the element resolves to end
/// springs, whatever else holds of it.
pub proof fn lemma_view_model_matches_regime_branch(c: HingeViewContext)
    ensures
        (spec_plan_model(spec_hinge_view_plan(c)) == AnalysisHingeModel::ConcentratedSpring)
            == spec_resolves_to_concentrated_spring(c.kind, c.side_column_release, c.regime),
{
}

/// The end-spring backbone is drawn with the N–M interaction exactly for the
/// spring laws that the analysis applies it to.
pub proof fn lemma_mn_line_matches_spring_law(c: HingeViewContext)
    ensures
        spec_hinge_view_plan(c) matches HingeViewPlan::SpringBackbone { mn_linear } ==> mn_linear
            == spec_follows_mn_interaction(c.spring_law),
        c.spring_law == FlexuralSpringLaw::Takeda ==> !(spec_hinge_view_plan(c) matches HingeViewPlan::SpringBackbone { mn_linear: true }),
{
}

} // verus!

use squid_n_element::factory::{
    build_nonlinear_behavior, BehaviorContext, DamperKind, NonlinearBehavior, NonlinearMember,
};
use squid_n_element::hinge_view::{
    hinge_view_plan, plan_model, resolves_to_concentrated_spring, AnalysisHingeModel,
    HingeViewContext, HingeViewPlan,
};
use squid_n_element::hysteresis::FlexuralSpringLaw;
use squid_n_element::model::{ElementKind, ForceRegime};
use squid_n_element::regime::{resolve_force_regime, MemberTopology, ResolvedRegime};

/// Node 0 fixed at the origin, node 1 at (5000, 0, 0) and node 2 at
/// (0, 0, 3000); nodes 1 and 2 belong to a rigid diaphragm. The girder
/// [0, 1] resolves to end springs, the column [0, 2] to fibers.
fn regime_of(nodes: [u32; 2]) -> ResolvedRegime {
    resolve_force_regime(&MemberTopology {
        force_regime: ForceRegime::Auto,
        axis_vertical: Some(nodes.contains(&2)),
        nodes_on_rigid_diaphragm: nodes.iter().map(|&n| n != 0).collect(),
    })
}

fn view_context(kind: ElementKind, nodes: [u32; 2], side_column_release: bool) -> HingeViewContext {
    HingeViewContext {
        kind,
        side_column_release,
        regime: regime_of(nodes),
        strength_issue: false,
        spring_law: FlexuralSpringLaw::Bilinear,
    }
}

fn behavior_context(kind: ElementKind, regime: ResolvedRegime) -> BehaviorContext {
    BehaviorContext {
        kind,
        side_column_release: false,
        panel_offset: false,
        wall_seismic: true,
        wall_panel_available: true,
        wall_shear_capacity_positive: true,
        damper: DamperKind::Maxwell,
        regime,
        spring_law: FlexuralSpringLaw::Bilinear,
    }
}

#[test]
fn resolves_to_concentrated_spring_matches_build_hinge_view() {
    let check = |c: &HingeViewContext| {
        let view = hinge_view_plan(c);
        assert_eq!(
            resolves_to_concentrated_spring(c.kind, c.side_column_release, c.regime),
            plan_model(view) == AnalysisHingeModel::ConcentratedSpring,
            "要素種別・レジーム {:?} でヘルパーとビューの分岐が不一致",
            c.kind
        );
    };

    check(&view_context(ElementKind::Beam, [0, 1], false));
    check(&view_context(ElementKind::Beam, [0, 2], false));
    check(&view_context(ElementKind::Fiber, [0, 2], false));
    check(&view_context(ElementKind::MultiSpring, [0, 2], false));

    // A wall-side column: vertical, on no rigid diaphragm, released in plane.
    let mut column = view_context(ElementKind::Beam, [0, 2], true);
    column.regime = resolve_force_regime(&MemberTopology {
        force_regime: ForceRegime::Auto,
        axis_vertical: Some(true),
        nodes_on_rigid_diaphragm: vec![false, false],
    });
    check(&column);
    assert!(
        !resolves_to_concentrated_spring(column.kind, column.side_column_release, column.regime),
        "壁側柱は集中ばね分岐を取らない"
    );
}

#[test]
fn test_build_nonlinear_behavior_concentrated_spring_uses_spring_beam() {
    let regime = regime_of([0, 1]);
    assert_eq!(regime, ResolvedRegime::ConcentratedSpring);
    let behavior = build_nonlinear_behavior(&behavior_context(ElementKind::Beam, regime));
    assert!(
        matches!(
            behavior,
            NonlinearBehavior::Member {
                inner: NonlinearMember::SpringBeam { .. },
                ..
            }
        ),
        "nonlinear ConcentratedSpring should be ConcentratedSpringBeam"
    );
}

#[test]
fn test_build_nonlinear_behavior_fiber_uses_fiber_beam() {
    let regime = regime_of([0, 2]);
    let behavior = build_nonlinear_behavior(&behavior_context(ElementKind::Fiber, regime));
    assert_eq!(
        behavior,
        NonlinearBehavior::FiberBeam,
        "nonlinear Fiber should be FiberBeam"
    );
}

#[test]
fn hinge_view_plans_by_element() {
    let mut c = view_context(ElementKind::Beam, [0, 1], false);
    assert_eq!(
        hinge_view_plan(&c),
        HingeViewPlan::SpringBackbone { mn_linear: true }
    );
    c.spring_law = FlexuralSpringLaw::Takeda;
    assert_eq!(
        hinge_view_plan(&c),
        HingeViewPlan::SpringBackbone { mn_linear: false }
    );
    c.strength_issue = true;
    assert_eq!(
        hinge_view_plan(&c),
        HingeViewPlan::Empty(AnalysisHingeModel::ConcentratedSpring)
    );
    let c = view_context(ElementKind::Beam, [0, 2], false);
    assert_eq!(
        hinge_view_plan(&c),
        HingeViewPlan::Surface(AnalysisHingeModel::Fiber)
    );
    let c = view_context(ElementKind::Beam, [0, 2], true);
    assert_eq!(
        hinge_view_plan(&c),
        HingeViewPlan::Empty(AnalysisHingeModel::Other)
    );
    let c = view_context(ElementKind::MultiSpring, [0, 2], false);
    assert_eq!(
        hinge_view_plan(&c),
        HingeViewPlan::Surface(AnalysisHingeModel::MultiSpring)
    );
    let c = view_context(ElementKind::Wall, [0, 2], false);
    assert_eq!(
        hinge_view_plan(&c),
        HingeViewPlan::Empty(AnalysisHingeModel::Other)
    );
}

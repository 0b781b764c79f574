use squid_n_element::dof::NodeId;
use squid_n_element::end_release::{
    condensation_layout, elem_disp, hinge_dofs, hinge_slot, hinge_uhat_from, resolve_end_releases,
    ReleaseSpring, ReleasedRotation,
};
use squid_n_element::misc_wall::{
    attached_strip, same_pair, strip_edges, wing_sides, StripEdge, WallEdges,
};
use squid_n_element::model::{ElementKind, EndCondition};
use squid_n_element::panel_offset::{
    coupling, n_dof, n_panel_dof, resolve, MemberDirection, PanelFace, PanelMemberContext,
};
use squid_n_element::rigid_zone::{
    all_rc_src_at, apply_auto_rigid_zones, recompute_auto_zones, JointMember, RigidZone,
    RigidZoneRule, ZoneSource,
};
use squid_n_element::staged::{hinge_from_record, hinge_record, Staged};
use squid_n_element::stiffness_factors::{
    composite_kind, is_wall_top_bottom_girder, slab_factor_source, wall_girder_applies,
    CompositeKind, SlabFactorSource, WallCandidate,
};
use squid_n_element::model::SectionShapeKind;

fn n(ids: &[u32]) -> Vec<NodeId> {
    ids.iter().map(|&i| NodeId(i)).collect()
}

// ---- end releases -------------------------------------------------------

#[test]
fn member_without_torsional_stiffness_keeps_rx() {
    let pinned = [EndCondition::Pinned, EndCondition::Pinned];
    let releases = resolve_end_releases(pinned, [false, false], false);
    assert!(
        releases.iter().all(|r| r.dof != 3 && r.dof != 9),
        "J=0 で rx が解放された: {:?}",
        releases
    );
    assert_eq!(releases.len(), 4);

    let releases = resolve_end_releases(pinned, [false, false], true);
    assert_eq!(releases.len(), 6);
}

#[test]
fn semi_rigid_and_released_torsion_ends() {
    let r = resolve_end_releases([EndCondition::SemiRigid, EndCondition::Fixed], [false, true], true);
    let dofs: Vec<(usize, ReleaseSpring)> = r.iter().map(|x| (x.dof, x.spring)).collect();
    assert_eq!(
        dofs,
        vec![
            (3, ReleaseSpring::SemiRigid),
            (4, ReleaseSpring::SemiRigid),
            (5, ReleaseSpring::SemiRigid),
            (9, ReleaseSpring::Free),
        ]
    );
    assert!(resolve_end_releases([EndCondition::Fixed, EndCondition::Fixed], [false, false], true)
        .is_empty());
}

#[test]
fn condensation_layout_numbers_internal_dofs_in_release_order() {
    let layout = condensation_layout(&vec![4, 5, 9, 11]);
    assert_eq!(layout.len(), 12);
    assert_eq!(layout[4], Some(12));
    assert_eq!(layout[5], Some(13));
    assert_eq!(layout[9], Some(14));
    assert_eq!(layout[11], Some(15));
    for row in [0, 1, 2, 3, 6, 7, 8, 10] {
        assert_eq!(layout[row], None);
    }
    let layout = condensation_layout(&vec![11, 5]);
    assert_eq!(layout[11], Some(12));
    assert_eq!(layout[5], Some(13));
    assert!(condensation_layout(&vec![]).iter().all(|e| e.is_none()));
}

#[test]
fn released_rotations_take_their_internal_values() {
    let releases = vec![
        ReleasedRotation {
            dof: 4,
            spring: ReleaseSpring::Free,
        },
        ReleasedRotation {
            dof: 11,
            spring: ReleaseSpring::SemiRigid,
        },
    ];
    let u: [f64; 12] = std::array::from_fn(|i| i as f64);
    let e = elem_disp(&releases, &vec![-1.0, -2.0], &u);
    assert_eq!(e[4], -1.0);
    assert_eq!(e[11], -2.0);
    assert_eq!(e[5], 5.0);
}

#[test]
fn hinges_act_on_active_stiff_ends() {
    let h = hinge_dofs([true, false], [[true, true], [true, true]]);
    assert_eq!(h, vec![(0, 0), (0, 1)]);
    let h = hinge_dofs([true, true], [[false, true], [true, false]]);
    assert_eq!(h, vec![(0, 1), (1, 0)]);
    assert_eq!(hinge_slot(0, 0), 4);
    assert_eq!(hinge_slot(1, 1), 11);
    let u = [0.0f64; 12];
    let uhat = hinge_uhat_from(&h, &[1.0, 2.0, 3.0, 4.0], &u);
    assert_eq!(uhat[5], 2.0);
    assert_eq!(uhat[10], 3.0);
    assert_eq!(uhat[4], 0.0);
}

// ---- trial / committed state -------------------------------------------

fn with_ry(base: [f64; 12], ry: f64) -> [f64; 12] {
    let mut u = base;
    u[4] += ry;
    u
}

#[test]
fn test_commit_revert() {
    let mut disp: Staged<[f64; 12]> = Staged::new([0.0; 12]);

    disp.update(with_ry(disp.trial, 0.001), false);
    assert!((disp.trial[4] - 0.001).abs() < 1e-12);
    assert!(disp.committed[4].abs() < 1e-12);
    disp.revert();
    assert!(disp.trial[4].abs() < 1e-12);
    assert!(disp.committed[4].abs() < 1e-12);

    disp.update(with_ry(disp.trial, 0.001), false);
    disp.commit();
    assert!((disp.trial[4] - 0.001).abs() < 1e-12);
    assert!((disp.committed[4] - 0.001).abs() < 1e-12);

    disp.update(with_ry(disp.trial, 0.002), false);
    assert!((disp.trial[4] - 0.003).abs() < 1e-12);
    disp.revert();
    assert!((disp.trial[4] - 0.001).abs() < 1e-12);
    assert!((disp.committed[4] - 0.001).abs() < 1e-12);
}

#[test]
fn test_snapshot_restore() {
    let mut disp: Staged<[f64; 12]> = Staged::new([0.0; 12]);
    disp.update(with_ry(disp.trial, 0.001), true);
    let snap = disp.snapshot();

    disp.update(with_ry(disp.trial, 0.002), false);
    assert!((disp.trial[4] - 0.003).abs() < 1e-12);

    disp.restore(snap);
    assert!((disp.trial[4] - 0.001).abs() < 1e-12);
    assert!((disp.committed[4] - 0.001).abs() < 1e-12);
}

#[test]
fn hinge_records_round_trip() {
    let kappa = [1.0, 2.0, 3.0, 4.0];
    let thb = [5.0, 6.0, 7.0, 8.0];
    let rec = hinge_record(&kappa, &thb);
    assert_eq!(rec, vec![1.0, 2.0, 3.0, 4.0, 5.0, 6.0, 7.0, 8.0]);
    assert_eq!(hinge_from_record(&rec), Some((kappa, thb)));
    assert_eq!(hinge_from_record::<f64>(&vec![]), None);
}

// ---- rigid zones --------------------------------------------------------

fn zone(length_i: f64, source_i: ZoneSource, face_i: Option<f64>) -> RigidZone<f64> {
    RigidZone {
        length_i,
        length_j: 0.0,
        source_i,
        source_j: ZoneSource::Auto,
        face_i,
        face_j: None,
        panel_offset_i: 0.0,
        panel_offset_j: 0.0,
    }
}

#[test]
fn test_apply_auto_rigid_zones_and_manual_protection() {
    // The girder's computed zone: face distance 300 (half the 600 column),
    // rigid length 300 − 700/4 = 125; the column gets none computed here.
    let computed = vec![None, Some(zone(125.0, ZoneSource::Auto, Some(300.0)))];
    let mut zones = vec![zone(0.0, ZoneSource::Auto, None); 2];
    assert_eq!(zones[1].length_i, 0.0);
    assert!(RigidZoneRule::default().consider_walls);

    apply_auto_rigid_zones(&mut zones, &computed);
    assert!((zones[1].length_i - 125.0).abs() < 1e-9, "λ_i={}", zones[1].length_i);

    zones[1].source_i = ZoneSource::Manual;
    zones[1].length_i = 999.0;
    zones[1].face_i = Some(0.0);
    apply_auto_rigid_zones(&mut zones, &computed);
    assert_eq!(zones[1].length_i, 999.0, "Manual 端が上書きされた");
    assert!(
        (zones[1].face_i.unwrap_or(0.0) - 300.0).abs() < 1e-9,
        "Manual 端でも face_i は再算定されるべき: face_i={:?}",
        zones[1].face_i
    );
    assert_eq!(zones[0].length_i, 0.0);
}

#[test]
fn recomputing_keeps_sources_and_takes_faces() {
    let mut z = zone(10.0, ZoneSource::Manual, Some(1.0));
    z.length_j = 20.0;
    let mut c = zone(50.0, ZoneSource::Auto, Some(7.0));
    c.length_j = 60.0;
    c.face_j = Some(8.0);
    recompute_auto_zones(&mut z, &c);
    assert_eq!(z.length_i, 10.0);
    assert_eq!(z.length_j, 60.0);
    assert_eq!(z.face_i, Some(7.0));
    assert_eq!(z.face_j, Some(8.0));
    assert_eq!(z.source_i, ZoneSource::Manual);
}

#[test]
fn rigid_zones_only_at_all_concrete_joints() {
    let rc = JointMember {
        kind: ElementKind::Beam,
        steel_like: false,
    };
    let steel = JointMember {
        kind: ElementKind::Beam,
        steel_like: true,
    };
    let steel_brace = JointMember {
        kind: ElementKind::Brace,
        steel_like: true,
    };
    assert!(all_rc_src_at(&vec![rc, rc, steel_brace]));
    assert!(!all_rc_src_at(&vec![rc, steel]));
    assert!(all_rc_src_at(&vec![]));
}

// ---- stiffness increases -------------------------------------------------

fn wall(nodes: &[u32], seismic: bool) -> WallCandidate {
    WallCandidate {
        kind: ElementKind::Wall,
        nodes: n(nodes),
        seismic,
    }
}

#[test]
fn test_beam_new_wall_girder_requires_both_nodes_shared() {
    // The girder 1→4 shares only node 1 with the wall 0-1-2-3.
    let elements = vec![
        WallCandidate {
            kind: ElementKind::Beam,
            nodes: n(&[1, 4]),
            seismic: false,
        },
        wall(&[0, 1, 2, 3], true),
    ];
    assert!(
        !wall_girder_applies(true, &n(&[1, 4]), &elements),
        "壁節点を1つしか共有しない梁には倍率が掛からないはず"
    );
    assert!(wall_girder_applies(true, &n(&[0, 1]), &elements));
}

#[test]
fn test_beam_new_wall_girder_vertical_member_not_scaled() {
    // The column 0→3 is a side edge of the wall 0-1-2-3: vertical, so not
    // stiffened.
    let elements = vec![wall(&[0, 1, 2, 3], true)];
    assert!(is_wall_top_bottom_girder(&elements, NodeId(0), NodeId(3)));
    assert!(!wall_girder_applies(false, &n(&[0, 3]), &elements));
}

#[test]
fn wall_girder_needs_a_seismic_wall_of_four_nodes() {
    let elements = vec![wall(&[0, 1, 2, 3], false), wall(&[0, 1, 2], true)];
    assert!(!is_wall_top_bottom_girder(&elements, NodeId(0), NodeId(1)));
    assert!(!wall_girder_applies(true, &n(&[0]), &vec![wall(&[0, 1, 2, 3], true)]));
}

#[test]
fn stiffness_sources_by_shape() {
    assert_eq!(
        slab_factor_source(Some(SectionShapeKind::RcRect)),
        SlabFactorSource::SlabCooperation
    );
    assert_eq!(
        slab_factor_source(Some(SectionShapeKind::SteelH)),
        SlabFactorSource::CompositeBeam
    );
    assert_eq!(
        slab_factor_source(Some(SectionShapeKind::RcBeamRect)),
        SlabFactorSource::Unchanged
    );
    assert_eq!(slab_factor_source(None), SlabFactorSource::Unchanged);
    assert_eq!(
        composite_kind(SectionShapeKind::SrcRect, true),
        Some(CompositeKind::Src)
    );
    assert_eq!(
        composite_kind(SectionShapeKind::CftPipe, true),
        Some(CompositeKind::Cft)
    );
    assert_eq!(composite_kind(SectionShapeKind::CftBox, false), None);
    assert_eq!(composite_kind(SectionShapeKind::SteelBox, true), None);
}

// ---- joint panels -----------------------------------------------------------

/// A girder 0→1 and a column 2→0 with a joint panel at node 0.
fn model_with_panel() -> Vec<(ElementKind, Option<NodeId>)> {
    vec![
        (ElementKind::Beam, Some(NodeId(0))),
        (ElementKind::Beam, Some(NodeId(2))),
        (ElementKind::PanelZone, Some(NodeId(0))),
    ]
}

fn member(nodes: &[u32], direction: MemberDirection, elements: Vec<(ElementKind, Option<NodeId>)>) -> PanelMemberContext {
    PanelMemberContext {
        kind: ElementKind::Beam,
        nodes: n(nodes),
        direction: Some(direction),
        elements,
    }
}

#[test]
fn test_resolve_assigns_zeta_by_member_direction() {
    let beam = member(&[0, 1], MemberDirection::Horizontal, model_with_panel());
    let beam_ends = resolve(&beam).expect("梁の i 端がパネル");
    assert_eq!(beam_ends[0].map(|e| e.face), Some(PanelFace::Girder));
    assert!(beam_ends[1].is_none(), "j 端（節点 1）にパネルは無い");

    let col = member(&[2, 0], MemberDirection::Vertical, model_with_panel());
    let col_ends = resolve(&col).expect("柱の j 端がパネル");
    assert!(col_ends[0].is_none(), "i 端（節点 2）にパネルは無い");
    assert_eq!(col_ends[1].map(|e| e.face), Some(PanelFace::Column));
}

#[test]
fn test_resolve_returns_none_without_panel() {
    let mut elements = model_with_panel();
    elements.retain(|e| !matches!(e.0, ElementKind::PanelZone));
    let beam = member(&[0, 1], MemberDirection::Horizontal, elements);
    assert!(resolve(&beam).is_none());
}

#[test]
fn test_resolve_skips_diagonal_member() {
    let beam = member(&[0, 1], MemberDirection::Diagonal, model_with_panel());
    assert!(resolve(&beam).is_none());
}

#[test]
fn panel_coupling_follows_the_panelled_ends() {
    let both = [Some(-0.5f64), Some(-0.5)];
    assert_eq!(n_panel_dof(&both), 4);
    assert_eq!(n_dof(&both), 16);
    assert_eq!(
        coupling(&both),
        vec![(3, 12, -0.5), (4, 13, -0.5), (9, 14, -0.5), (10, 15, -0.5)]
    );
    let j_only = [None, Some(0.5f64)];
    assert_eq!(n_dof(&j_only), 14);
    assert_eq!(coupling(&j_only), vec![(9, 12, 0.5), (10, 13, 0.5)]);
    assert!(coupling::<f64>(&[None, None]).is_empty());
    let mut brace = member(&[0, 1], MemberDirection::Horizontal, model_with_panel());
    brace.kind = ElementKind::Brace;
    assert!(resolve(&brace).is_none());
}

// ---- attached non-seismic walls --------------------------------------------

/// A wall between columns 1→4 and 2→5, bottom edge 1–2, top edge 4–5.
fn edges() -> WallEdges {
    WallEdges {
        bottom: Some([NodeId(1), NodeId(2)]),
        top: Some([NodeId(4), NodeId(5)]),
    }
}

#[test]
fn columns_bound_wings_on_their_side() {
    assert_eq!(wing_sides([NodeId(1), NodeId(4)], &edges()), [true, false]);
    assert_eq!(wing_sides([NodeId(5), NodeId(2)], &edges()), [false, true]);
    assert_eq!(wing_sides([NodeId(1), NodeId(5)], &edges()), [false, false]);
    let open = WallEdges {
        bottom: Some([NodeId(1), NodeId(2)]),
        top: None,
    };
    assert_eq!(wing_sides([NodeId(1), NodeId(4)], &open), [false, false]);
}

#[test]
fn girders_carry_the_strip_of_their_edge() {
    assert_eq!(strip_edges([NodeId(2), NodeId(1)], &edges()), [true, false]);
    assert_eq!(strip_edges([NodeId(4), NodeId(5)], &edges()), [false, true]);
    assert_eq!(attached_strip([NodeId(4), NodeId(5)], &edges()), Some(StripEdge::Top));
    assert_eq!(attached_strip([NodeId(1), NodeId(2)], &edges()), Some(StripEdge::Bottom));
    assert_eq!(attached_strip([NodeId(1), NodeId(4)], &edges()), None);
    assert!(same_pair([NodeId(7), NodeId(8)], NodeId(8), NodeId(7)));
    assert!(!same_pair([NodeId(7), NodeId(8)], NodeId(7), NodeId(7)));
}

use squid_n_element::dof::NodeId;
use squid_n_element::end_release::{resolve_end_releases, ReleaseSpring, ReleasedRotation};
use squid_n_element::model::{ElementKind, EndCondition};
use squid_n_element::torsion::{
    i_end_torsion_release, i_end_torsion_release_skip, is_line_member,
    rotation_restrained_elsewhere, NodeSupport, OtherElement, TorsionContext, TorsionReleaseSkip,
};

/// A frame given by integer node coordinates [mm], fixed nodes and members.
struct Frame {
    coords: Vec<[i64; 3]>,
    fixed: Vec<bool>,
    members: Vec<(u32, ElementKind, Vec<u32>)>,
}

fn axis(f: &Frame, nodes: &[u32]) -> Option<[i64; 3]> {
    if nodes.len() < 2 {
        return None;
    }
    let a = f.coords[nodes[0] as usize];
    let b = f.coords[nodes[1] as usize];
    let d = [b[0] - a[0], b[1] - a[1], b[2] - a[2]];
    if d == [0, 0, 0] {
        None
    } else {
        Some(d)
    }
}

fn parallel(a: [i64; 3], b: [i64; 3]) -> bool {
    a[1] * b[2] - a[2] * b[1] == 0 && a[2] * b[0] - a[0] * b[2] == 0 && a[0] * b[1] - a[1] * b[0] == 0
}

/// What the torsion release of member `idx` reads of the frame.
fn context(f: &Frame, idx: usize, release_mode: bool) -> TorsionContext {
    let (id, kind, nodes) = &f.members[idx];
    let own = axis(f, nodes);
    TorsionContext {
        release_mode,
        id: *id,
        kind: *kind,
        axis: own.map(|d| [d[0] != 0, d[1] != 0, d[2] != 0]),
        nodes: nodes.iter().map(|&n| NodeId(n)).collect(),
        supports: f
            .fixed
            .iter()
            .map(|&fx| {
                Some(NodeSupport {
                    rot_fixed: [fx; 3],
                    spring_rot_positive: None,
                })
            })
            .collect(),
        elements: f
            .members
            .iter()
            .map(|(oid, okind, onodes)| OtherElement {
                id: *oid,
                kind: *okind,
                nodes: onodes.iter().map(|&n| NodeId(n)).collect(),
                parallel: match (axis(f, onodes), own) {
                    (Some(a), Some(b)) => Some(parallel(a, b)),
                    _ => None,
                },
            })
            .collect(),
    }
}

/// Two columns (0→1, 2→3) on fixed bases, joined at the top by a girder in
/// X; with `split_x` the girder is split at node 4 into two segments.
fn torsion_test_model(split_x: bool) -> Frame {
    let mut coords = vec![[0, 0, 0], [0, 0, 3000], [6000, 0, 0], [6000, 0, 3000]];
    let mut members = vec![
        (0, ElementKind::Beam, vec![0, 1]),
        (1, ElementKind::Beam, vec![2, 3]),
    ];
    if split_x {
        coords.push([3000, 0, 3000]);
        members.push((2, ElementKind::Beam, vec![1, 4]));
        members.push((3, ElementKind::Beam, vec![4, 3]));
    } else {
        members.push((2, ElementKind::Beam, vec![1, 3]));
    }
    let fixed = (0..coords.len()).map(|n| n == 0 || n == 2).collect();
    Frame {
        coords,
        fixed,
        members,
    }
}

/// The member's released rotations for fixed ends, torsion released at the
/// i end when allowed, and torsional stiffness present.
fn releases(ctx: &TorsionContext) -> Vec<ReleasedRotation> {
    resolve_end_releases(
        [EndCondition::Fixed, EndCondition::Fixed],
        [i_end_torsion_release(ctx), false],
        true,
    )
}

#[test]
fn test_beam_i_end_torsion_released_by_default() {
    let model = torsion_test_model(false);
    let beam = context(&model, 2, true);
    assert!(i_end_torsion_release(&beam), "梁の i 端ねじれが解放されていない");
    assert_eq!(
        releases(&beam),
        vec![ReleasedRotation {
            dof: 3,
            spring: ReleaseSpring::Free
        }],
        "j 端は解放しない"
    );

    let column = context(&model, 0, true);
    assert!(i_end_torsion_release(&column), "柱の i 端ねじれも解放される");
}

#[test]
fn test_column_torsion_release_skipped_at_collinear_column_node() {
    let mut model = torsion_test_model(false);
    model.coords.push([0, 0, 1500]);
    model.fixed.push(false);
    let mid = (model.coords.len() - 1) as u32;
    model.members[0].2 = vec![0, mid];
    let upper = model.members.len() as u32;
    model.members.push((upper, ElementKind::Beam, vec![mid, 1]));
    let lower = context(&model, 0, true);
    let upper_el = context(&model, model.members.len() - 1, true);
    assert!(
        !i_end_torsion_release(&lower) && !i_end_torsion_release(&upper_el),
        "鉛直材だけが集まる中間節点を持つ柱は解放してはならない"
    );
    assert_eq!(
        i_end_torsion_release_skip(&lower),
        Some(TorsionReleaseSkip::UnrestrainedRotation { node: NodeId(mid) })
    );
}

#[test]
fn test_i_end_torsion_release_skipped_at_collinear_beam_node() {
    let model = torsion_test_model(true);
    let seg_a = context(&model, 2, true);
    let seg_b = context(&model, 3, true);
    assert!(
        !i_end_torsion_release(&seg_a) && !i_end_torsion_release(&seg_b),
        "ねじれ回転が浮く節点を持つ梁は解放してはならない"
    );
    assert!(releases(&seg_a).is_empty());
    assert_eq!(
        i_end_torsion_release_skip(&seg_b),
        Some(TorsionReleaseSkip::UnrestrainedRotation { node: NodeId(4) })
    );
}

#[test]
fn test_beam_torsion_mode_keep_retains_torsion() {
    let model = torsion_test_model(false);
    let beam = context(&model, 2, false);
    assert!(!i_end_torsion_release(&beam));
    assert_eq!(
        i_end_torsion_release_skip(&beam),
        Some(TorsionReleaseSkip::ModeKeep)
    );
    assert!(releases(&beam).is_empty());
}

#[test]
fn non_line_members_and_degenerate_axes_are_not_released() {
    let model = torsion_test_model(false);
    let mut wall = context(&model, 2, true);
    wall.kind = ElementKind::Wall;
    assert_eq!(
        i_end_torsion_release_skip(&wall),
        Some(TorsionReleaseSkip::NotLineMember)
    );
    let mut beam = context(&model, 2, true);
    beam.axis = None;
    assert_eq!(
        i_end_torsion_release_skip(&beam),
        Some(TorsionReleaseSkip::DegenerateAxis)
    );
    assert!(is_line_member(ElementKind::Brace));
    assert!(!is_line_member(ElementKind::PanelZone));
}

#[test]
fn support_springs_and_panels_count_as_restraint_or_not() {
    let model = torsion_test_model(true);
    let mut seg = context(&model, 2, true);
    // A rotational support spring about X at the split node holds the girder.
    seg.supports[4] = Some(NodeSupport {
        rot_fixed: [false; 3],
        spring_rot_positive: Some([true, false, false]),
    });
    assert!(rotation_restrained_elsewhere(&seg, NodeId(4), &[true, false, false]));
    assert!(i_end_torsion_release(&seg));
    // A joint panel at the node does not hold it.
    let mut seg = context(&model, 2, true);
    seg.elements.push(OtherElement {
        id: 9,
        kind: ElementKind::PanelZone,
        nodes: vec![NodeId(4)],
        parallel: None,
    });
    assert!(!rotation_restrained_elsewhere(&seg, NodeId(4), &[true, false, false]));
    // A wall at the node does.
    seg.elements.push(OtherElement {
        id: 10,
        kind: ElementKind::Wall,
        nodes: vec![NodeId(1), NodeId(4), NodeId(3)],
        parallel: None,
    });
    assert!(rotation_restrained_elsewhere(&seg, NodeId(4), &[true, false, false]));
}

use squid_n_element::dof::{
    node_global_dofs, push_node_global_dofs, push_panel_global_dofs, DofList, DofMap, NodeId,
    DOF_PER_NODE, NO_DOF, PANEL_DOF_PER_NODE,
};
use squid_n_element::panel_offset::panel_member_global_dofs;

/// Two nodes; node 0 is free (equations 0..6), node 1 fully restrained.
fn two_node_dof_map() -> DofMap {
    let mut active: Vec<Option<usize>> = (0..DOF_PER_NODE).map(Some).collect();
    active.extend(std::iter::repeat(None).take(DOF_PER_NODE));
    DofMap {
        active,
        panel: Vec::new(),
    }
}

#[test]
fn node_global_dofs_orders_by_node_and_marks_restrained() {
    let dof = two_node_dof_map();
    let g = node_global_dofs(&[NodeId(0), NodeId(1)], &dof);
    let g = g.as_slice();

    assert_eq!(g.len(), 2 * DOF_PER_NODE);
    for (d, &v) in g.iter().take(DOF_PER_NODE).enumerate() {
        assert_eq!(v, dof.active(d).unwrap());
    }
    assert!(g[DOF_PER_NODE..].iter().all(|&v| v == usize::MAX));
}

#[test]
fn node_global_dofs_follows_given_order() {
    let dof = two_node_dof_map();
    let forward = node_global_dofs(&[NodeId(0), NodeId(1)], &dof);
    let reversed = node_global_dofs(&[NodeId(1), NodeId(0)], &dof);
    let (forward, reversed) = (forward.as_slice(), reversed.as_slice());

    assert_eq!(forward[..DOF_PER_NODE], reversed[DOF_PER_NODE..]);
    assert_eq!(forward[DOF_PER_NODE..], reversed[..DOF_PER_NODE]);
}

#[test]
fn push_helpers_append_to_existing_sequence() {
    let dof = two_node_dof_map();
    let mut g = DofList::new();
    push_node_global_dofs(&mut g, &[NodeId(0)], &dof);
    push_panel_global_dofs(&mut g, 0, &dof);

    assert_eq!(g.len(), DOF_PER_NODE + PANEL_DOF_PER_NODE);
    let g = g.as_slice();
    assert_eq!(
        g[..DOF_PER_NODE],
        node_global_dofs(&[NodeId(0)], &dof).as_slice()[..]
    );
    assert!(g[DOF_PER_NODE..].iter().all(|&v| v == usize::MAX));
}

#[test]
fn panel_dofs_follow_the_node_dofs() {
    let dof = DofMap {
        active: (0..12).map(|g| if g % 2 == 0 { Some(g) } else { None }).collect(),
        panel: vec![Some(100), Some(101), None, None, Some(104), Some(105)],
    };
    let mut g = node_global_dofs(&[NodeId(1)], &dof);
    push_panel_global_dofs(&mut g, 2, &dof);
    push_panel_global_dofs(&mut g, 1, &dof);
    push_panel_global_dofs(&mut g, 7, &dof);
    assert_eq!(
        g.as_slice(),
        &[6, NO_DOF, 8, NO_DOF, 10, NO_DOF, 104, 105, NO_DOF, NO_DOF, NO_DOF, NO_DOF]
    );
}

#[test]
fn dof_map_lookups_past_the_end_have_no_equation() {
    let dof = DofMap {
        active: vec![Some(3)],
        panel: vec![Some(9), Some(8)],
    };
    assert_eq!(dof.active(0), Some(3));
    assert_eq!(dof.active(1), None);
    assert_eq!(dof.panel_dof(0, 1), Some(8));
    assert_eq!(dof.panel_dof(0, 2), None);
    assert_eq!(dof.panel_dof(1, 0), None);
    assert_eq!(dof.panel_dof(usize::MAX, 1), None);
}

#[test]
fn panelled_member_numbers_inner_then_panel_dofs() {
    let dof = DofMap {
        active: (0..18).map(Some).collect(),
        panel: vec![None, None, Some(40), Some(41), Some(42), Some(43)],
    };
    let inner = node_global_dofs(&[NodeId(1), NodeId(2)], &dof);
    let g = panel_member_global_dofs(inner, &[None, Some(NodeId(2))], &dof);
    let expected: Vec<usize> = (6..18).chain([42, 43]).collect();
    assert_eq!(g.as_slice(), &expected[..]);

    let inner = node_global_dofs(&[NodeId(1), NodeId(2)], &dof);
    let g = panel_member_global_dofs(inner, &[Some(NodeId(1)), Some(NodeId(2))], &dof);
    let expected: Vec<usize> = (6..18).chain([40, 41, 42, 43]).collect();
    assert_eq!(g.as_slice(), &expected[..]);
}

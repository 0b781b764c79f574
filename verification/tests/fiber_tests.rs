use squid_n_element::fiber::{gauss_fiber_pair, FiberRegion, GaussFibers};

fn make_test_fiber_beam(shear_mod: Option<f64>) -> Vec<GaussFibers<String>> {
    let _ = shear_mod;
    let regions = vec![FiberRegion::Concrete, FiberRegion::Rebar, FiberRegion::Concrete];
    gauss_fiber_pair(
        &regions,
        &Some("concrete".to_string()),
        &Some("rebar".to_string()),
        &None,
    )
}

#[test]
fn test_different_gp_have_independent_mats() {
    let gauss_points = make_test_fiber_beam(Some(0.0));
    let gp0 = &gauss_points[0].mats[0];
    let gp1 = &gauss_points[1].mats[0];
    assert!(!std::ptr::eq(gp0, gp1), "GP mats must be independent instances");
}

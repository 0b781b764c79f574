use vstd::prelude::*;

pub mod dof;
pub mod snapshot;
pub mod model;
pub mod regime;
pub mod hysteresis;
pub mod text;
pub mod input_check;
pub mod torsion;
pub mod end_release;
pub mod rigid_zone;
pub mod panel_offset;
pub mod hinge_view;
pub mod factory;
pub mod fiber;
pub mod staged;
pub mod stiffness_factors;
pub mod misc_wall;
pub mod slab_cooperation;

verus! {
} // verus!

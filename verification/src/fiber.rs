//! Fiber sections: material regions and their tags, the yield strengths of
//! the regions, and the material instances of each Gauss-point section.
//!
//! Each fiber carries a material tag: 0 = concrete, 1 = main bar, 2 = steel
//! (rolled section, tube, encased steel). Each Gauss point owns its section
//! and its own material instances, one per fiber: no state is shared between
//! fibers or between Gauss points.
use vstd::prelude::*;

verus! {

/// The material region of a fiber.
#[derive(Clone, Copy, Debug, PartialEq, Eq, Structural)]
pub enum FiberRegion {
    /// Concrete.
    Concrete,
    /// Main reinforcing bar.
    Rebar,
    /// Steel (rolled section, tube, encased steel).
    Steel,
}

/// Material tag of concrete fibers.
pub const CONCRETE_TAG: usize = 0;
/// Material tag of main-bar fibers.
pub const REBAR_TAG: usize = 1;
/// Material tag of steel fibers.
pub const STEEL_TAG: usize = 2;

pub open spec fn spec_region_tag(r: FiberRegion) -> usize {
    match r {
        FiberRegion::Concrete => CONCRETE_TAG,
        FiberRegion::Rebar => REBAR_TAG,
        FiberRegion::Steel => STEEL_TAG,
    }
}

pub open spec fn spec_tag_region(tag: usize) -> FiberRegion {
    if tag == REBAR_TAG {
        FiberRegion::Rebar
    } else if tag == STEEL_TAG {
        FiberRegion::Steel
    } else {
        FiberRegion::Concrete
    }
}

/// The material tag of a fiber in region `r`.
pub fn region_tag(r: FiberRegion) -> (t: usize)
    ensures
        t == spec_region_tag(r),
{
    match r {
        FiberRegion::Concrete => CONCRETE_TAG,
        FiberRegion::Rebar => REBAR_TAG,
        FiberRegion::Steel => STEEL_TAG,
    }
}

/// The region of a fiber with material tag `tag`; unknown tags are
/// concrete.
pub fn tag_region(tag: usize) -> (r: FiberRegion)
    ensures
        r == spec_tag_region(tag),
{
    if tag == REBAR_TAG {
        FiberRegion::Rebar
    } else if tag == STEEL_TAG {
        FiberRegion::Steel
    } else {
        FiberRegion::Concrete
    }
}

/// A fiber's region survives the round trip through its tag, so the N–M
/// surface built from tags classifies each fiber as the analysis section
/// does.
pub proof fn lemma_region_tag_round_trip(r: FiberRegion, tag: usize)
    ensures
        spec_tag_region(spec_region_tag(r)) == r,
        tag <= STEEL_TAG ==> spec_region_tag(spec_tag_region(tag)) == tag,
{
}

/// How the fibers of a Gauss-point section are laid out.
#[derive(Clone, Copy, Debug, PartialEq, Eq, Structural)]
pub enum FiberLayout {
    /// Fibers placed from the section shape, region by region.
    Shape,
    /// A solid `width × depth` grid of one material (tag given).
    Grid(usize),
}

pub open spec fn spec_fiber_layout(shape_given: bool, wall_shape: bool, has_fc: bool) -> FiberLayout {
    if shape_given && !wall_shape {
        FiberLayout::Shape
    } else if has_fc {
        FiberLayout::Grid(CONCRETE_TAG)
    } else {
        FiberLayout::Grid(STEEL_TAG)
    }
}

/// The layout of a section's fibers: from the shape when one is given and
/// it is not a wall, else a solid grid, of concrete when the material has an
/// Fc and of steel otherwise.
pub fn fiber_layout(shape_given: bool, wall_shape: bool, has_fc: bool) -> (r: FiberLayout)
    ensures
        r == spec_fiber_layout(shape_given, wall_shape, has_fc),
{
    if shape_given && !wall_shape {
        FiberLayout::Shape
    } else if has_fc {
        FiberLayout::Grid(CONCRETE_TAG)
    } else {
        FiberLayout::Grid(STEEL_TAG)
    }
}

/// Yield strengths of the regions of a fiber section; `V` is the strength
/// type.
#[derive(Clone, Copy, Debug)]
pub struct FiberYield<V> {
    /// fy of the member material (grids of shapeless sections).
    pub main: Option<V>,
    /// σy of the main bars.
    pub rebar: Option<V>,
    /// fy of the steel region.
    pub steel: Option<V>,
}

/// The strength of an encased steel material: its grade's F value for the
/// flange thickness, or else its fy.
pub open spec fn spec_grade_or_fy<V>(m: (Option<V>, Option<V>)) -> Option<V> {
    match m.0 {
        Some(v) => Some(v),
        None => m.1,
    }
}

pub open spec fn spec_fiber_yield<V>(
    main: Option<V>,
    rebar: Option<V>,
    src_shape: bool,
    steel_material: Option<(Option<V>, Option<V>)>,
) -> FiberYield<V> {
    FiberYield {
        main,
        rebar,
        steel: if src_shape {
            match steel_material {
                Some(m) => spec_grade_or_fy(m),
                None => None,
            }
        } else {
            main
        },
    }
}

/// The yield strengths of a fiber section. `main` is fy of the member
/// material, `rebar` σy of the main bars; for an SRC shape the steel region
/// takes the encased steel material (`(F value for its grade, fy)`), with no
/// fallback to the member material, otherwise the member material's fy.
pub fn resolve_fiber_yield<V: Copy>(
    main: Option<V>,
    rebar: Option<V>,
    src_shape: bool,
    steel_material: Option<(Option<V>, Option<V>)>,
) -> (r: FiberYield<V>)
    ensures
        r.main == spec_fiber_yield(main, rebar, src_shape, steel_material).main,
        r.rebar == spec_fiber_yield(main, rebar, src_shape, steel_material).rebar,
        r.steel == spec_fiber_yield(main, rebar, src_shape, steel_material).steel,
{
    let steel = if src_shape {
        match steel_material {
            Some((grade, fy)) => match grade {
                Some(v) => Some(v),
                None => fy,
            },
            None => None,
        }
    } else {
        main
    };
    FiberYield { main, rebar, steel }
}

pub open spec fn spec_steel_fiber_fy<V>(
    src_shape: bool,
    steel_material: Option<(Option<V>, Option<V>)>,
    mat_fy: Option<V>,
) -> Option<V> {
    if src_shape {
        match steel_material {
            Some(m) => match spec_grade_or_fy(m) {
                Some(v) => Some(v),
                None => mat_fy,
            },
            None => mat_fy,
        }
    } else {
        mat_fy
    }
}

/// The yield strength the input check expects for a section's steel
/// fibers: for an SRC shape the encased steel material's strength, falling
/// back to the member material's fy; otherwise the member material's fy.
pub fn resolve_steel_fiber_fy<V: Copy>(
    src_shape: bool,
    steel_material: Option<(Option<V>, Option<V>)>,
    mat_fy: Option<V>,
) -> (r: Option<V>)
    ensures
        r == spec_steel_fiber_fy(src_shape, steel_material, mat_fy),
{
    if src_shape {
        let from_steel = match steel_material {
            Some((grade, fy)) => match grade {
                Some(v) => Some(v),
                None => fy,
            },
            None => None,
        };
        match from_steel {
            Some(v) => Some(v),
            None => mat_fy,
        }
    } else {
        mat_fy
    }
}

/// Whenever the section builder resolves a steel strength, the input check
/// resolves the same one; only for an SRC shape without an encased steel
/// strength does the input check fall back to the member material.
pub proof fn lemma_check_accepts_what_builder_resolves<V>(
    main: Option<V>,
    rebar: Option<V>,
    src_shape: bool,
    steel_material: Option<(Option<V>, Option<V>)>,
)
    ensures
        spec_fiber_yield(main, rebar, src_shape, steel_material).steel matches Some(v) ==> spec_steel_fiber_fy(src_shape, steel_material, main) == Some(v),
{
}

/// The fibers of one Gauss-point section: their material tags and their own
/// material instances, fiber by fiber.
pub struct GaussFibers<M> {
    /// Material tag of each fiber.
    pub tags: Vec<usize>,
    /// Material instance of each fiber.
    pub mats: Vec<M>,
}

/// The templates of the regions present among `regions` are given.
pub open spec fn templates_cover<M>(
    regions: Seq<FiberRegion>,
    concrete: Option<M>,
    rebar: Option<M>,
    steel: Option<M>,
) -> bool {
    forall|k: int|
        0 <= k < regions.len() ==> match #[trigger] regions[k] {
            FiberRegion::Concrete => concrete is Some,
            FiberRegion::Rebar => rebar is Some,
            FiberRegion::Steel => steel is Some,
        }
}

pub open spec fn template_of<M>(
    r: FiberRegion,
    concrete: Option<M>,
    rebar: Option<M>,
    steel: Option<M>,
) -> Option<M> {
    match r {
        FiberRegion::Concrete => concrete,
        FiberRegion::Rebar => rebar,
        FiberRegion::Steel => steel,
    }
}

/// The fibers of a section whose fibers lie in `regions`: each fiber gets
/// the tag of its region and a fresh copy of its region's template (the
/// templates of regions that no fiber lies in are not needed).
pub fn gauss_fibers<M: Clone>(
    regions: &Vec<FiberRegion>,
    concrete: &Option<M>,
    rebar: &Option<M>,
    steel: &Option<M>,
) -> (g: GaussFibers<M>)
    requires
        templates_cover(regions@, *concrete, *rebar, *steel),
    ensures
        g.tags@.len() == regions@.len(),
        g.mats@.len() == regions@.len(),
        forall|k: int| 0 <= k < regions@.len() ==> g.tags@[k] == spec_region_tag(#[trigger] regions@[k]),
        forall|k: int|
            0 <= k < regions@.len() ==> cloned(
                template_of(#[trigger] regions@[k], *concrete, *rebar, *steel)->0,
                g.mats@[k],
            ),
{
    let mut tags: Vec<usize> = Vec::new();
    let mut mats: Vec<M> = Vec::new();
    let mut k: usize = 0;
    while k < regions.len()
        invariant
            0 <= k <= regions@.len(),
            templates_cover(regions@, *concrete, *rebar, *steel),
            tags@.len() == k,
            mats@.len() == k,
            forall|j: int| 0 <= j < k ==> tags@[j] == spec_region_tag(#[trigger] regions@[j]),
            forall|j: int|
                0 <= j < k ==> cloned(
                    template_of(#[trigger] regions@[j], *concrete, *rebar, *steel)->0,
                    mats@[j],
                ),
        decreases regions@.len() - k,
    {
        let r = regions[k];
        assert(match regions@[k as int] {
            FiberRegion::Concrete => concrete is Some,
            FiberRegion::Rebar => rebar is Some,
            FiberRegion::Steel => steel is Some,
        });
        let template = match r {
            FiberRegion::Concrete => concrete.as_ref().unwrap(),
            FiberRegion::Rebar => rebar.as_ref().unwrap(),
            FiberRegion::Steel => steel.as_ref().unwrap(),
        };
        let m = template.clone();
        tags.push(region_tag(r));
        mats.push(m);
        k += 1;
    }
    GaussFibers { tags, mats }
}

/// The sections of a member's two Gauss points, built alike but each with
/// its own material instances.
pub fn gauss_fiber_pair<M: Clone>(
    regions: &Vec<FiberRegion>,
    concrete: &Option<M>,
    rebar: &Option<M>,
    steel: &Option<M>,
) -> (pair: Vec<GaussFibers<M>>)
    requires
        templates_cover(regions@, *concrete, *rebar, *steel),
    ensures
        pair@.len() == 2,
        forall|g: int|
            0 <= g < 2 ==> {
                &&& (#[trigger] pair@[g]).tags@.len() == regions@.len()
                &&& pair@[g].mats@.len() == regions@.len()
                &&& forall|k: int|
                    0 <= k < regions@.len() ==> pair@[g].tags@[k] == spec_region_tag(
                        #[trigger] regions@[k],
                    )
                &&& forall|k: int|
                    0 <= k < regions@.len() ==> cloned(
                        template_of(#[trigger] regions@[k], *concrete, *rebar, *steel)->0,
                        pair@[g].mats@[k],
                    )
            },
{
    let a = gauss_fibers(regions, concrete, rebar, steel);
    let b = gauss_fibers(regions, concrete, rebar, steel);
    let mut pair: Vec<GaussFibers<M>> = Vec::new();
    pair.push(a);
    pair.push(b);
    pair
}

} // verus!

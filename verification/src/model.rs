//! The element and material attributes that the element-building rules read.
use vstd::prelude::*;

verus! {

/// The kind of a structural element.
#[derive(Clone, Copy, Debug, PartialEq, Eq, Structural)]
pub enum ElementKind {
    /// Beam or column.
    Beam,
    /// Joint panel.
    PanelZone,
    /// Shell (floor plate).
    Shell,
    /// Multi-spring member.
    MultiSpring,
    /// Fiber member.
    Fiber,
    /// Shear wall.
    Wall,
    /// Brace.
    Brace,
    /// Spring between nodes.
    NodalSpring,
    /// Base isolator.
    Isolator,
    /// Damper.
    Damper,
}

/// How a member's nonlinearity is modelled.
#[derive(Clone, Copy, Debug, PartialEq, Eq, Structural)]
pub enum ForceRegime {
    /// Chosen from the member's topology.
    Auto,
    /// End springs in uniaxial bending and shear.
    UniaxialBendingShear,
    /// Interaction of axial force and biaxial bending (fiber section).
    AxialBendingInteract,
}

/// The kind of nonlinear analysis.
#[derive(Clone, Copy, Debug, PartialEq, Eq, Structural)]
pub enum AnalysisKind {
    /// Incremental (pushover) analysis.
    Incremental,
    /// Time-history response analysis.
    TimeHistory,
}

/// A hysteresis rule.
#[derive(Clone, Copy, Debug, PartialEq, Eq, Structural)]
pub enum HysteresisModel {
    /// Chosen from the section.
    Auto,
    /// Bilinear (standard).
    Standard,
    /// Tsuji–Yamada.
    TsujiYamada,
    /// Steel with local buckling.
    SteelBuckling,
    /// Retrograde (unloading toward the previous peak).
    Retrograde,
    /// Origin-oriented.
    OriginOriented,
    /// Maximum-point-oriented.
    MaxPointOriented,
    /// Takeda.
    Takeda,
    /// Karsan–Jirsa concrete.
    KarsanJirsa,
}

/// The connection at a member end.
#[derive(Clone, Copy, Debug, PartialEq, Eq, Structural)]
pub enum EndCondition {
    /// Rigid connection.
    Fixed,
    /// Pin.
    Pinned,
    /// Semi-rigid: a rotational spring of given stiffness.
    SemiRigid,
}

/// The category of a material.
#[derive(Clone, Copy, Debug, PartialEq, Eq, Structural)]
pub enum MaterialCategory {
    /// Concrete.
    Concrete,
    /// Structural steel.
    Steel,
    /// Reinforcing bar.
    Rebar,
}

} // verus!

verus! {

/// The shape family of a section.
#[derive(Clone, Copy, Debug, PartialEq, Eq, Structural)]
pub enum SectionShapeKind {
    /// Reinforced concrete rectangle.
    RcRect,
    /// Reinforced concrete circle.
    RcCircle,
    /// Reinforced concrete wall.
    RcWall,
    /// Reinforced concrete beam rectangle.
    RcBeamRect,
    /// Reinforced concrete column rectangle.
    RcColumnRect,
    /// Steel-reinforced concrete rectangle.
    SrcRect,
    /// Steel-reinforced concrete beam rectangle.
    SrcBeamRect,
    /// Steel-reinforced concrete column rectangle.
    SrcColumnRect,
    /// Rolled or built-up H section.
    SteelH,
    /// Steel box.
    SteelBox,
    /// Concrete-filled steel box.
    CftBox,
    /// Concrete-filled steel pipe.
    CftPipe,
    /// Any other shape.
    Other,
}

} // verus!

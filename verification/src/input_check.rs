//! Input check for nonlinear analysis: settings under which a member's
//! strength cannot be computed, each reported with the correction to make.
//!
//! Only elements whose yielding nonlinear analysis follows are checked: shear
//! walls (in-plane shear strength) and line members (`Beam`, `Fiber`,
//! `MultiSpring`: the material strengths that bending and shear capacities
//! need). Elements modelled elastically by design are not checked.
use crate::model::{MaterialCategory, SectionShapeKind};
use crate::text::{decimal, decimal_text, join_first_lines, join_lines, string_views};
use vstd::prelude::*;
use vstd::string::StringExecFns;

verus! {

/// How many issues an error message lists; the rest are only counted.
pub const MAX_LISTED: usize = 5;

/// The concrete strength Fc of a material.
#[derive(Clone, Copy, Debug, PartialEq, Eq, Structural)]
pub enum FcSetting {
    /// No Fc.
    Unset,
    /// Fc ≤ 0.
    NonPositive,
    /// Fc > 0.
    Positive,
}

/// What the input check reads of a member's material.
pub struct MaterialFacts {
    /// The material's name.
    pub name: String,
    /// The material's category.
    pub category: MaterialCategory,
    /// The material's Fc.
    pub fc: FcSetting,
    /// Fc as it is displayed (used in the messages about Fc ≤ 0).
    pub fc_text: String,
    /// Whether the material has a yield strength fy > 0.
    pub fy_positive: bool,
}

/// What the input check reads of a section's shape.
#[derive(Clone, Copy, Debug, PartialEq, Eq, Structural)]
pub struct ShapeFacts {
    /// The shape's family.
    pub kind: SectionShapeKind,
    /// A concrete-like section (RC, SRC or CFT).
    pub concrete_like: bool,
    /// The shape carries main bars.
    pub has_rebar: bool,
}

/// What the input check reads of the material of a section's shear reinforcement.
pub struct ShearRebarFacts {
    /// The material's name.
    pub name: String,
    /// Whether its grade is one that the shear strength formulas cover
    /// (normal-strength bars; high-strength grades are not).
    pub grade_supported: bool,
    /// Whether the material has a yield strength fy > 0.
    pub fy_positive: bool,
}

/// What the input check reads of a line member.
pub struct MemberFacts {
    /// The member's id.
    pub id: u32,
    /// Whether a section is assigned, and its shape if it has one.
    pub section: Option<Option<ShapeFacts>>,
    /// The member's material, if one is assigned.
    pub material: Option<MaterialFacts>,
    /// Whether the yield strength of the main bars can be resolved.
    pub rebar_yield_resolved: bool,
    /// The material of the section's shear reinforcement, if one is assigned.
    pub shear_rebar: Option<ShearRebarFacts>,
    /// Whether the steel fibers get a yield strength fy > 0.
    pub steel_fiber_fy_positive: bool,
}

/// An input that keeps a member's strength from being computed.
#[derive(Clone, Copy, Debug, PartialEq, Eq, Structural)]
pub enum MemberIssue {
    /// No section is assigned.
    NoSection,
    /// No material is assigned.
    NoMaterial,
    /// The member material is a reinforcing bar.
    RebarMaterial,
    /// A reinforced concrete section carries a steel material.
    RcSteelMaterial,
    /// A concrete-like section whose material has no Fc.
    FcUnset,
    /// A concrete-like section whose material has Fc ≤ 0.
    FcNonPositive,
    /// The yield strength of the main bars cannot be resolved.
    RebarYieldUnresolved,
    /// The shear reinforcement is of a grade that the strength formulas do
    /// not cover.
    ShearRebarGradeUnsupported,
    /// The shear reinforcement's material has no positive fy.
    ShearRebarFyUnset,
    /// The yield strength of the steel region cannot be resolved.
    SteelYieldUnresolved,
    /// A steel section whose material has no positive fy.
    SteelFyUnset,
    /// A member without section shape whose material has Fc ≤ 0.
    ShapelessFcNonPositive,
    /// A member without section shape whose material has neither a positive fy nor Fc.
    ShapelessNoStrength,
}

/// A plain reinforced concrete rectangle or circle.
pub open spec fn spec_plain_rc(shape: ShapeFacts) -> bool {
    shape.kind == SectionShapeKind::RcRect || shape.kind == SectionShapeKind::RcCircle
}

/// A reinforced concrete section whose bars are laid out with the section:
/// rectangles (general, beam, column) and circles.
pub open spec fn spec_rc_with_bars(shape: ShapeFacts) -> bool {
    spec_plain_rc(shape) || shape.kind == SectionShapeKind::RcBeamRect || shape.kind
        == SectionShapeKind::RcColumnRect
}

/// Whether fibers of this shape include a steel region (rolled section,
/// tube, encased steel or tube wall): every shape but the reinforced
/// concrete ones (rectangles, circle and wall), whose fibers are concrete
/// and bars only.
pub open spec fn spec_has_steel_fiber_region(shape: ShapeFacts) -> bool {
    !(spec_rc_with_bars(shape) || shape.kind == SectionShapeKind::RcWall)
}

/// Whether fibers of `shape` include a steel region.
pub fn shape_has_steel_fiber_region(shape: &ShapeFacts) -> (r: bool)
    ensures
        r == spec_has_steel_fiber_region(*shape),
{
    match shape.kind {
        SectionShapeKind::RcRect | SectionShapeKind::RcCircle | SectionShapeKind::RcWall
        | SectionShapeKind::RcBeamRect | SectionShapeKind::RcColumnRect => false,
        _ => true,
    }
}

/// A material category that contradicts the section: a reinforcing bar as
/// member material, or a steel material on a reinforced concrete section
/// with laid-out bars.
pub open spec fn spec_category_mismatch(shape: Option<ShapeFacts>, category: MaterialCategory) -> Option<MemberIssue> {
    if category == MaterialCategory::Rebar {
        Some(MemberIssue::RebarMaterial)
    } else if (shape matches Some(s) && spec_rc_with_bars(s)) && category == MaterialCategory::Steel {
        Some(MemberIssue::RcSteelMaterial)
    } else {
        None
    }
}

/// The issue of the shear reinforcement of a section with bars: an assigned
/// material of an unsupported grade, or of a supported grade without fy.
pub open spec fn spec_shear_rebar_issue(sr: Option<ShearRebarFacts>) -> Option<MemberIssue> {
    match sr {
        Some(r) => if !r.grade_supported {
            Some(MemberIssue::ShearRebarGradeUnsupported)
        } else if !r.fy_positive {
            Some(MemberIssue::ShearRebarFyUnset)
        } else {
            None
        },
        None => None,
    }
}

/// The issue of a member's inputs, checked in this order: section,
/// material, material category, then the strengths that the section needs.
pub open spec fn spec_member_issue(m: MemberFacts) -> Option<MemberIssue> {
    match m.section {
        None => Some(MemberIssue::NoSection),
        Some(shape) => match m.material {
            None => Some(MemberIssue::NoMaterial),
            Some(mat) => {
                if spec_category_mismatch(shape, mat.category) is Some {
                    spec_category_mismatch(shape, mat.category)
                } else {
                    match shape {
                        Some(s) => if s.concrete_like {
                            match mat.fc {
                                FcSetting::Unset => Some(MemberIssue::FcUnset),
                                FcSetting::NonPositive => Some(MemberIssue::FcNonPositive),
                                FcSetting::Positive => if s.has_rebar && !m.rebar_yield_resolved {
                                    Some(MemberIssue::RebarYieldUnresolved)
                                } else if s.has_rebar && spec_shear_rebar_issue(m.shear_rebar) is Some {
                                    spec_shear_rebar_issue(m.shear_rebar)
                                } else if spec_has_steel_fiber_region(s)
                                    && !m.steel_fiber_fy_positive {
                                    Some(MemberIssue::SteelYieldUnresolved)
                                } else {
                                    None
                                },
                            }
                        } else if !mat.fy_positive {
                            Some(MemberIssue::SteelFyUnset)
                        } else {
                            None
                        },
                        None => match mat.fc {
                            FcSetting::Positive => None,
                            FcSetting::NonPositive => Some(MemberIssue::ShapelessFcNonPositive),
                            FcSetting::Unset => if mat.fy_positive {
                                None
                            } else {
                                Some(MemberIssue::ShapelessNoStrength)
                            },
                        },
                    }
                }
            },
        },
    }
}

/// A member that the input check accepts has every strength that building its
/// sections needs: a section and a material that is no reinforcing bar; for
/// a concrete-like section a positive Fc, resolvable main bars and usable
/// shear reinforcement where it has bars, and a positive steel fy where its
/// fibers have a steel region; for a steel section a positive fy; without a
/// shape, a positive Fc or, lacking any Fc, a positive fy.
pub proof fn lemma_accepted_member_has_its_strengths(m: MemberFacts)
    requires
        spec_member_issue(m) is None,
    ensures
        m.section is Some,
        m.material is Some,
        m.material->0.category != MaterialCategory::Rebar,
        match m.section->0 {
            Some(s) => if s.concrete_like {
                &&& m.material->0.fc == FcSetting::Positive
                &&& s.has_rebar ==> m.rebar_yield_resolved && spec_shear_rebar_issue(
                    m.shear_rebar,
                ) is None
                &&& spec_has_steel_fiber_region(s) ==> m.steel_fiber_fy_positive
            } else {
                m.material->0.fy_positive
            },
            None => m.material->0.fc == FcSetting::Positive || (m.material->0.fc
                == FcSetting::Unset && m.material->0.fy_positive),
        },
{
}

/// Concrete-filled tubes and steel-encased concrete sections have fibers in
/// a steel region: a member with such a section that the input check
/// accepts has a positive steel fiber fy, and a member whose section and
/// concrete are in order but whose steel fibers get no fy is reported as
/// such. Sections of plain reinforced concrete have no steel region: their
/// steel fiber fy is never asked for.
pub proof fn lemma_steel_bearing_sections_need_steel_fy(m: MemberFacts, s: ShapeFacts)
    requires
        m.section == Some(Some(s)),
    ensures
        (s.kind == SectionShapeKind::CftBox || s.kind == SectionShapeKind::CftPipe || s.kind
            == SectionShapeKind::SrcRect || s.kind == SectionShapeKind::SrcBeamRect || s.kind
            == SectionShapeKind::SrcColumnRect) && s.concrete_like && spec_member_issue(m) is None
            ==> m.steel_fiber_fy_positive,
        (s.kind == SectionShapeKind::CftBox || s.kind == SectionShapeKind::CftPipe || s.kind
            == SectionShapeKind::SrcRect || s.kind == SectionShapeKind::SrcBeamRect || s.kind
            == SectionShapeKind::SrcColumnRect) && s.concrete_like && !s.has_rebar && (
        m.material matches Some(mat) && mat.category != MaterialCategory::Rebar && mat.fc
            == FcSetting::Positive) && !m.steel_fiber_fy_positive ==> spec_member_issue(m) == Some(
            MemberIssue::SteelYieldUnresolved,
        ),
        (s.kind == SectionShapeKind::RcRect || s.kind == SectionShapeKind::RcCircle || s.kind
            == SectionShapeKind::RcWall || s.kind == SectionShapeKind::RcBeamRect || s.kind
            == SectionShapeKind::RcColumnRect) ==> spec_member_issue(m) == spec_member_issue(
            MemberFacts { steel_fiber_fy_positive: true, ..m },
        ),
{
}

/// The message of `issue` for member `id` (decimal), material `name` and
/// Fc as displayed.
pub open spec fn issue_text(issue: MemberIssue, id: Seq<char>, name: Seq<char>, fc: Seq<char>) -> Seq<char> {
    match issue {
            MemberIssue::NoSection => "部材 ID "@ + id + " に断面が設定されていません。部材タブで断面を割り当ててください。非線形解析では断面諸元から部材の剛性・終局耐力を算定します。"@,
            MemberIssue::NoMaterial => "部材 ID "@ + id + " に材料が設定されていません。材料タブで材料を割り当ててください。非線形解析では材料強度から部材の終局耐力を算定します。"@,
            MemberIssue::RebarMaterial => "部材 ID "@ + id + " の材料「"@ + name + "」は区分が鉄筋です。線材の材料には鋼材またはコンクリートを割り当ててください。RC 断面の配筋は断面タブで主筋の材質として設定します。"@,
            MemberIssue::RcSteelMaterial => "部材 ID "@ + id + " は配筋を持つ RC 断面ですが、材料「"@ + name + "」の区分が鋼材です。材料タブで区分をコンクリートに変更してください。区分は構造種別の判定に用い、鋼材のまま検定すると耐力を過大評価します。"@,
            MemberIssue::FcUnset => "部材 ID "@ + id + " はコンクリート系断面ですが、材料「"@ + name + "」にコンクリート強度 Fc が設定されていません。材料タブで Fc を設定してください。非線形解析では Fc から曲げひび割れ・曲げ降伏・せん断終局の各耐力を算定します。"@,
            MemberIssue::FcNonPositive => "部材 ID "@ + id + " の材料「"@ + name + "」のコンクリート強度 Fc が "@ + fc + " で 0 以下です。材料タブで Fc を設定してください。非線形解析では Fc から曲げひび割れ・曲げ降伏・せん断終局の各耐力を算定します。"@,
            MemberIssue::RebarYieldUnresolved => "部材 ID "@ + id + " の断面に主筋の材料が割り当てられていません。断面タブで主筋の材料（SD295A・SD345 等）を割り当ててください。非線形解析では主筋の降伏強度 σy から曲げ降伏耐力を算定します。"@,
            MemberIssue::ShearRebarGradeUnsupported => "部材 ID "@ + id + " のせん断補強筋の材料「"@ + name + "」は未対応のグレードです。断面タブでせん断補強筋に対応グレード（SR235・SR295・SD295A・SD345 等）の材料を割り当ててください。非線形解析ではせん断補強筋の降伏強度 σwy からせん断終局耐力を算定します。"@,
            MemberIssue::ShearRebarFyUnset => "部材 ID "@ + id + " のせん断補強筋の材料「"@ + name + "」に降伏強度 fy が設定されていません。材料タブで fy を設定してください。非線形解析ではせん断補強筋の降伏強度 σwy からせん断終局耐力を算定します。"@,
            MemberIssue::SteelYieldUnresolved => "部材 ID "@ + id + " の断面は鋼材領域（内蔵鉄骨・鋼管）を含みますが、鋼材の降伏強度を解決できません。断面へ内蔵鉄骨の材料を割り当てるか、材料「"@ + name + "」の fy を設定してください。ファイバー断面は鋼材の降伏進展を追うため必須です。"@,
            MemberIssue::SteelFyUnset => "部材 ID "@ + id + " は鋼材断面ですが、材料「"@ + name + "」に降伏強度 fy が設定されていません。材料タブで fy を設定してください。ファイバー断面は鋼材の降伏進展を追うため fy が必須です。"@,
            MemberIssue::ShapelessFcNonPositive => "部材 ID "@ + id + " の材料「"@ + name + "」のコンクリート強度 Fc が "@ + fc + " で 0 以下です。材料タブで Fc を設定してください。非線形解析では Fc から部材の終局耐力を算定します。"@,
            MemberIssue::ShapelessNoStrength => "部材 ID "@ + id + " の材料「"@ + name + "」に正の降伏強度 fy もコンクリート強度 Fc も設定されていません。材料タブでいずれかを設定してください。非線形解析では材料強度から部材の終局耐力を算定します。"@,
    }
}

/// Whether the message of `issue` names the shear reinforcement's material
/// rather than the member's.
pub open spec fn names_shear_rebar(issue: MemberIssue) -> bool {
    issue == MemberIssue::ShearRebarGradeUnsupported || issue == MemberIssue::ShearRebarFyUnset
}

/// The name of the material that the message of `issue` names.
pub open spec fn spec_named_material(m: MemberFacts, issue: MemberIssue) -> Seq<char> {
    if names_shear_rebar(issue) {
        match m.shear_rebar {
            Some(r) => r.name@,
            None => Seq::empty(),
        }
    } else {
        match m.material {
            Some(mat) => mat.name@,
            None => Seq::empty(),
        }
    }
}

/// The message of a member's issue, if it has one.
pub open spec fn spec_member_issue_text(m: MemberFacts) -> Option<Seq<char>> {
    match spec_member_issue(m) {
        None => None,
        Some(issue) => Some(
            issue_text(
                issue,
                decimal(m.id as nat),
                spec_named_material(m, issue),
                match m.material {
                    Some(mat) => mat.fc_text@,
                    None => Seq::empty(),
                },
            ),
        ),
    }
}

/// The message of `issue` for member `id`, material `name` and Fc `fc`.
pub fn issue_message(issue: MemberIssue, id: u32, name: &str, fc: &str) -> (m: String)
    ensures
        m@ == issue_text(issue, decimal(id as nat), name@, fc@),
{
    let id_text = decimal_text(id as u64);
    let mut m = String::from_str("部材 ID ");
    m.append(id_text.as_str());
    match issue {
            MemberIssue::NoSection => {
                m.append(" に断面が設定されていません。部材タブで断面を割り当ててください。非線形解析では断面諸元から部材の剛性・終局耐力を算定します。");
            },
            MemberIssue::NoMaterial => {
                m.append(" に材料が設定されていません。材料タブで材料を割り当ててください。非線形解析では材料強度から部材の終局耐力を算定します。");
            },
            MemberIssue::RebarMaterial => {
                m.append(" の材料「");
                m.append(name);
                m.append("」は区分が鉄筋です。線材の材料には鋼材またはコンクリートを割り当ててください。RC 断面の配筋は断面タブで主筋の材質として設定します。");
            },
            MemberIssue::RcSteelMaterial => {
                m.append(" は配筋を持つ RC 断面ですが、材料「");
                m.append(name);
                m.append("」の区分が鋼材です。材料タブで区分をコンクリートに変更してください。区分は構造種別の判定に用い、鋼材のまま検定すると耐力を過大評価します。");
            },
            MemberIssue::FcUnset => {
                m.append(" はコンクリート系断面ですが、材料「");
                m.append(name);
                m.append("」にコンクリート強度 Fc が設定されていません。材料タブで Fc を設定してください。非線形解析では Fc から曲げひび割れ・曲げ降伏・せん断終局の各耐力を算定します。");
            },
            MemberIssue::FcNonPositive => {
                m.append(" の材料「");
                m.append(name);
                m.append("」のコンクリート強度 Fc が ");
                m.append(fc);
                m.append(" で 0 以下です。材料タブで Fc を設定してください。非線形解析では Fc から曲げひび割れ・曲げ降伏・せん断終局の各耐力を算定します。");
            },
            MemberIssue::RebarYieldUnresolved => {
                m.append(" の断面に主筋の材料が割り当てられていません。断面タブで主筋の材料（SD295A・SD345 等）を割り当ててください。非線形解析では主筋の降伏強度 σy から曲げ降伏耐力を算定します。");
            },
            MemberIssue::ShearRebarGradeUnsupported => {
                m.append(" のせん断補強筋の材料「");
                m.append(name);
                m.append("」は未対応のグレードです。断面タブでせん断補強筋に対応グレード（SR235・SR295・SD295A・SD345 等）の材料を割り当ててください。非線形解析ではせん断補強筋の降伏強度 σwy からせん断終局耐力を算定します。");
            },
            MemberIssue::ShearRebarFyUnset => {
                m.append(" のせん断補強筋の材料「");
                m.append(name);
                m.append("」に降伏強度 fy が設定されていません。材料タブで fy を設定してください。非線形解析ではせん断補強筋の降伏強度 σwy からせん断終局耐力を算定します。");
            },
            MemberIssue::SteelYieldUnresolved => {
                m.append(" の断面は鋼材領域（内蔵鉄骨・鋼管）を含みますが、鋼材の降伏強度を解決できません。断面へ内蔵鉄骨の材料を割り当てるか、材料「");
                m.append(name);
                m.append("」の fy を設定してください。ファイバー断面は鋼材の降伏進展を追うため必須です。");
            },
            MemberIssue::SteelFyUnset => {
                m.append(" は鋼材断面ですが、材料「");
                m.append(name);
                m.append("」に降伏強度 fy が設定されていません。材料タブで fy を設定してください。ファイバー断面は鋼材の降伏進展を追うため fy が必須です。");
            },
            MemberIssue::ShapelessFcNonPositive => {
                m.append(" の材料「");
                m.append(name);
                m.append("」のコンクリート強度 Fc が ");
                m.append(fc);
                m.append(" で 0 以下です。材料タブで Fc を設定してください。非線形解析では Fc から部材の終局耐力を算定します。");
            },
            MemberIssue::ShapelessNoStrength => {
                m.append(" の材料「");
                m.append(name);
                m.append("」に正の降伏強度 fy もコンクリート強度 Fc も設定されていません。材料タブでいずれかを設定してください。非線形解析では材料強度から部材の終局耐力を算定します。");
            },
    }
    m
}

/// The contradiction between section and material category, if any.
pub fn category_mismatch_issue(shape: Option<ShapeFacts>, category: MaterialCategory) -> (r: Option<MemberIssue>)
    ensures
        r == spec_category_mismatch(shape, category),
{
    if category == MaterialCategory::Rebar {
        return Some(MemberIssue::RebarMaterial);
    }
    let rc_with_bars = match shape {
        Some(s) => match s.kind {
            SectionShapeKind::RcRect | SectionShapeKind::RcCircle | SectionShapeKind::RcBeamRect
            | SectionShapeKind::RcColumnRect => true,
            _ => false,
        },
        None => false,
    };
    if rc_with_bars && category == MaterialCategory::Steel {
        return Some(MemberIssue::RcSteelMaterial);
    }
    None
}

/// The issue of a section's shear reinforcement (see
/// [`spec_shear_rebar_issue`]).
pub fn shear_rebar_issue(sr: &Option<ShearRebarFacts>) -> (r: Option<MemberIssue>)
    ensures
        r == spec_shear_rebar_issue(*sr),
{
    match sr {
        Some(r) => if !r.grade_supported {
            Some(MemberIssue::ShearRebarGradeUnsupported)
        } else if !r.fy_positive {
            Some(MemberIssue::ShearRebarFyUnset)
        } else {
            None
        },
        None => None,
    }
}

/// The issue of a line member's inputs (see [`spec_member_issue`]).
pub fn member_issue(m: &MemberFacts) -> (r: Option<MemberIssue>)
    ensures
        r == spec_member_issue(*m),
{
    let shape = match m.section {
        None => return Some(MemberIssue::NoSection),
        Some(shape) => shape,
    };
    let mat = match &m.material {
        None => return Some(MemberIssue::NoMaterial),
        Some(mat) => mat,
    };
    if let Some(issue) = category_mismatch_issue(shape, mat.category) {
        return Some(issue);
    }
    match shape {
        Some(s) => {
            if s.concrete_like {
                match mat.fc {
                    FcSetting::Unset => return Some(MemberIssue::FcUnset),
                    FcSetting::NonPositive => return Some(MemberIssue::FcNonPositive),
                    FcSetting::Positive => {},
                }
                if s.has_rebar && !m.rebar_yield_resolved {
                    return Some(MemberIssue::RebarYieldUnresolved);
                }
                if s.has_rebar {
                    if let Some(issue) = shear_rebar_issue(&m.shear_rebar) {
                        return Some(issue);
                    }
                }
                if shape_has_steel_fiber_region(&s) && !m.steel_fiber_fy_positive {
                    return Some(MemberIssue::SteelYieldUnresolved);
                }
                return None;
            }
            if !mat.fy_positive {
                return Some(MemberIssue::SteelFyUnset);
            }
            None
        },
        None => match mat.fc {
            FcSetting::Positive => None,
            FcSetting::NonPositive => Some(MemberIssue::ShapelessFcNonPositive),
            FcSetting::Unset => if mat.fy_positive {
                None
            } else {
                Some(MemberIssue::ShapelessNoStrength)
            },
        },
    }
}

/// The message of a line member's issue, if its strength cannot be computed.
pub fn member_strength_issue(m: &MemberFacts) -> (r: Option<String>)
    ensures
        match r {
            None => spec_member_issue_text(*m) is None,
            Some(s) => spec_member_issue_text(*m) == Some(s@),
        },
{
    match member_issue(m) {
        None => None,
        Some(issue) => {
            proof {
                reveal_strlit("");
            }
            let fc = match &m.material {
                Some(mat) => mat.fc_text.as_str(),
                None => "",
            };
            let shear_named = match issue {
                MemberIssue::ShearRebarGradeUnsupported | MemberIssue::ShearRebarFyUnset => true,
                _ => false,
            };
            let name = if shear_named {
                match &m.shear_rebar {
                    Some(r) => r.name.as_str(),
                    None => "",
                }
            } else {
                match &m.material {
                    Some(mat) => mat.name.as_str(),
                    None => "",
                }
            };
            Some(issue_message(issue, m.id, name, fc))
        },
    }
}

/// What the input check reads of one element of the model.
pub enum ElementCheck {
    /// A shear wall, with the issue of its in-plane shear strength if any.
    Wall {
        issue: Option<String>,
    },
    /// A line member (`Beam`, `Fiber` or `MultiSpring`).
    LineMember(MemberFacts),
    /// An element that is modelled elastically by design.
    Elastic,
}

/// The issue message of one element, if any.
pub open spec fn spec_element_issue(e: ElementCheck) -> Option<Seq<char>> {
    match e {
        ElementCheck::Wall { issue } => match issue {
            Some(s) => Some(s@),
            None => None,
        },
        ElementCheck::LineMember(m) => spec_member_issue_text(m),
        ElementCheck::Elastic => None,
    }
}

/// The issue messages of `elements`, in element order.
pub open spec fn spec_input_issues(elements: Seq<ElementCheck>) -> Seq<Seq<char>>
    decreases elements.len(),
{
    if elements.len() == 0 {
        Seq::empty()
    } else {
        let rest = spec_input_issues(elements.drop_last());
        match spec_element_issue(elements.last()) {
            Some(s) => rest.push(s),
            None => rest,
        }
    }
}

/// Lists, in element order, the settings under which nonlinear analysis
/// cannot compute a member's strength.
pub fn nonlinear_input_issues(elements: &Vec<ElementCheck>) -> (issues: Vec<String>)
    ensures
        string_views(issues@) == spec_input_issues(elements@),
{
    let mut issues: Vec<String> = Vec::new();
    let mut i: usize = 0;
    while i < elements.len()
        invariant
            0 <= i <= elements@.len(),
            string_views(issues@) == spec_input_issues(elements@.take(i as int)),
        decreases elements@.len() - i,
    {
        let issue = match &elements[i] {
            ElementCheck::Wall { issue } => match issue {
                Some(s) => Some(s.clone()),
                None => None,
            },
            ElementCheck::LineMember(m) => member_strength_issue(m),
            ElementCheck::Elastic => None,
        };
        assert(elements@.take(i + 1).drop_last() =~= elements@.take(i as int));
        match issue {
            Some(s) => {
                issues.push(s);
                assert(string_views(issues@) =~= spec_input_issues(elements@.take(i as int)).push(
                    issues@.last()@,
                ));
            },
            None => {},
        }
        i += 1;
    }
    assert(elements@.take(elements@.len() as int) =~= elements@);
    issues
}

/// The error message for `issues`: the first [`MAX_LISTED`] on lines of their
/// own, then, if more remain, a line with their count.
pub open spec fn spec_input_error(issues: Seq<Seq<char>>) -> Seq<char> {
    if issues.len() > MAX_LISTED {
        join_lines(issues.take(MAX_LISTED as int)) + "\n他 "@ + decimal(
            (issues.len() - MAX_LISTED) as nat,
        ) + " 件"@
    } else {
        join_lines(issues)
    }
}

/// Fails with [`spec_input_error`] when [`nonlinear_input_issues`] finds any
/// issue, so that the analysis stops with the corrections to make.
pub fn ensure_nonlinear_input(elements: &Vec<ElementCheck>) -> (r: Result<(), String>)
    ensures
        (r is Ok) <==> spec_input_issues(elements@).len() == 0,
        r matches Err(msg) ==> msg@ == spec_input_error(spec_input_issues(elements@)),
{
    let issues = nonlinear_input_issues(elements);
    if issues.len() == 0 {
        return Ok(());
    }
    let listed = if issues.len() > MAX_LISTED {
        MAX_LISTED
    } else {
        issues.len()
    };
    let mut msg = join_first_lines(&issues, listed);
    if issues.len() > MAX_LISTED {
        let rest = decimal_text((issues.len() - MAX_LISTED) as u64);
        msg.append("\n他 ");
        msg.append(rest.as_str());
        msg.append(" 件");
    } else {
        assert(string_views(issues@).take(listed as int) =~= string_views(issues@));
    }
    Err(msg)
}

} // verus!

use squid_n_element::fiber::resolve_steel_fiber_fy;
use squid_n_element::input_check::{
    ensure_nonlinear_input, issue_message, member_issue, member_strength_issue,
    nonlinear_input_issues, shear_rebar_issue, ElementCheck, FcSetting, MaterialFacts,
    MemberFacts, MemberIssue, ShapeFacts, ShearRebarFacts, MAX_LISTED,
};
use squid_n_element::model::{MaterialCategory, SectionShapeKind};

/// A material as the check sees it: name, category, Fc (as displayed) and fy.
#[derive(Clone)]
struct Material {
    name: String,
    category: MaterialCategory,
    fc: Option<f64>,
    fy: Option<f64>,
}

fn steel_material() -> Material {
    Material {
        name: "SN400".into(),
        category: MaterialCategory::Steel,
        fc: None,
        fy: Some(235.0),
    }
}

fn concrete_material() -> Material {
    Material {
        name: "FC24".into(),
        category: MaterialCategory::Concrete,
        fy: None,
        fc: Some(24.0),
    }
}

fn rebar_material() -> Material {
    Material {
        name: "SD345".into(),
        category: MaterialCategory::Rebar,
        fy: Some(345.0),
        fc: None,
    }
}

fn steel_grade_material(grade: &str) -> Material {
    Material {
        name: grade.into(),
        ..steel_material()
    }
}

/// A section as the check sees it: its shape, and the materials of its main
/// bars and of its encased steel.
#[derive(Clone)]
struct Section {
    shape: Option<SectionShapeKind>,
    material: bool,
    rebar_material: Option<Material>,
    shear_rebar_material: Option<Material>,
    steel_material: Option<Material>,
}

fn rc_section() -> Section {
    Section {
        shape: Some(SectionShapeKind::RcBeamRect),
        material: true,
        rebar_material: Some(rebar_material()),
        shear_rebar_material: Some(rebar_material()),
        steel_material: None,
    }
}

fn rc_section_without_rebar_material() -> Section {
    let mut sec = rc_section();
    sec.rebar_material = None;
    sec
}

fn steel_h_section() -> Section {
    Section {
        shape: Some(SectionShapeKind::SteelH),
        material: true,
        rebar_material: None,
        shear_rebar_material: None,
        steel_material: None,
    }
}

fn src_section() -> Section {
    Section {
        shape: Some(SectionShapeKind::SrcBeamRect),
        material: true,
        rebar_material: Some(rebar_material()),
        shear_rebar_material: Some(rebar_material()),
        steel_material: Some(steel_grade_material("SN400B")),
    }
}

fn fc_setting(fc: Option<f64>) -> FcSetting {
    match fc {
        None => FcSetting::Unset,
        Some(v) if v <= 0.0 => FcSetting::NonPositive,
        Some(_) => FcSetting::Positive,
    }
}

/// Whether the shear strength formulas cover a shear reinforcement grade
/// (normal-strength bars only).
fn shear_grade_supported(name: &str) -> bool {
    matches!(
        name,
        "SR235" | "SR295" | "SD295" | "SD295A" | "SD295B" | "SD345" | "SD390" | "SD490"
    )
}

/// The facts of member `id` with section `sec` and material `mat`.
fn member(id: u32, sec: &Section, mat: &Material) -> MemberFacts {
    let shape = sec.shape.map(|kind| ShapeFacts {
        kind,
        concrete_like: matches!(
            kind,
            SectionShapeKind::RcRect
                | SectionShapeKind::RcCircle
                | SectionShapeKind::RcWall
                | SectionShapeKind::RcBeamRect
                | SectionShapeKind::RcColumnRect
                | SectionShapeKind::SrcRect
                | SectionShapeKind::SrcBeamRect
                | SectionShapeKind::SrcColumnRect
                | SectionShapeKind::CftBox
                | SectionShapeKind::CftPipe
        ),
        has_rebar: matches!(
            kind,
            SectionShapeKind::RcRect
                | SectionShapeKind::RcCircle
                | SectionShapeKind::RcBeamRect
                | SectionShapeKind::RcColumnRect
                | SectionShapeKind::SrcRect
                | SectionShapeKind::SrcBeamRect
                | SectionShapeKind::SrcColumnRect
        ),
    });
    let is_src = matches!(
        sec.shape,
        Some(SectionShapeKind::SrcRect)
            | Some(SectionShapeKind::SrcBeamRect)
            | Some(SectionShapeKind::SrcColumnRect)
    );
    let steel_fy = resolve_steel_fiber_fy(
        is_src,
        sec.steel_material.as_ref().map(|m| (None, m.fy)),
        mat.fy,
    );
    MemberFacts {
        id,
        section: Some(shape),
        material: if sec.material {
            Some(MaterialFacts {
                name: mat.name.clone(),
                category: mat.category,
                fc: fc_setting(mat.fc),
                fc_text: mat.fc.map(|v| v.to_string()).unwrap_or_default(),
                fy_positive: mat.fy.is_some_and(|fy| fy > 0.0),
            })
        } else {
            None
        },
        rebar_yield_resolved: sec
            .rebar_material
            .as_ref()
            .and_then(|m| m.fy)
            .is_some(),
        shear_rebar: sec.shear_rebar_material.as_ref().map(|m| ShearRebarFacts {
            name: m.name.clone(),
            grade_supported: shear_grade_supported(&m.name),
            fy_positive: m.fy.is_some_and(|fy| fy > 0.0),
        }),
        steel_fiber_fy_positive: steel_fy.is_some_and(|fy| fy > 0.0),
    }
}

fn beam_model(sec: Section, mat: Material) -> Vec<ElementCheck> {
    vec![ElementCheck::LineMember(member(0, &sec, &mat))]
}

fn shapeless() -> Section {
    let mut sec = rc_section();
    sec.shape = None;
    sec
}

#[test]
fn test_valid_inputs_produce_no_issues() {
    let model = beam_model(shapeless(), steel_material());
    assert!(nonlinear_input_issues(&model).is_empty());
    assert!(ensure_nonlinear_input(&model).is_ok());

    let model = beam_model(rc_section(), concrete_material());
    assert!(nonlinear_input_issues(&model).is_empty());

    let model = beam_model(steel_h_section(), steel_material());
    assert!(nonlinear_input_issues(&model).is_empty());

    let model = beam_model(src_section(), concrete_material());
    assert!(nonlinear_input_issues(&model).is_empty());

    let mut mat = concrete_material();
    mat.fy = Some(235.0);
    let model = beam_model(steel_h_section(), mat);
    assert!(
        nonlinear_input_issues(&model).is_empty(),
        "{:?}",
        nonlinear_input_issues(&model)
    );
}

#[test]
fn test_issue_when_rebar_yield_strength_unresolvable() {
    let model = beam_model(rc_section_without_rebar_material(), concrete_material());
    let issues = nonlinear_input_issues(&model);
    assert_eq!(issues.len(), 1, "{:?}", issues);
    assert!(issues[0].contains("主筋の材料"), "{}", issues[0]);

    let mut sec = rc_section();
    let mut rebar = rebar_material();
    rebar.fy = None;
    sec.rebar_material = Some(rebar);
    let model = beam_model(sec, concrete_material());
    let issues = nonlinear_input_issues(&model);
    assert_eq!(issues.len(), 1, "{:?}", issues);
    assert!(issues[0].contains("主筋の材料"), "{}", issues[0]);
}

#[test]
fn test_issue_when_rc_member_fc_missing_or_not_positive() {
    for fc in [None, Some(0.0)] {
        let mut mat = concrete_material();
        mat.fc = fc;
        let model = beam_model(rc_section(), mat);
        let issues = nonlinear_input_issues(&model);
        assert_eq!(issues.len(), 1, "{:?}", issues);
        assert!(issues[0].contains("Fc"), "{}", issues[0]);
        assert!(ensure_nonlinear_input(&model).is_err());
    }
}

#[test]
fn test_issue_when_shear_rebar_grade_unsupported() {
    let mut sec = rc_section();
    let mut rebar = rebar_material();
    rebar.name = "KH785".into();
    sec.rebar_material = Some(rebar.clone());
    sec.shear_rebar_material = Some(rebar);
    let model = beam_model(sec, concrete_material());
    let issues = nonlinear_input_issues(&model);
    assert_eq!(issues.len(), 1, "{:?}", issues);
    assert!(issues[0].contains("KH785"), "{}", issues[0]);
    assert!(issues[0].contains("未対応"), "{}", issues[0]);
    assert!(ensure_nonlinear_input(&model).is_err());
}

#[test]
fn test_issue_when_supported_shear_rebar_fy_missing() {
    let make = |fy: Option<f64>| {
        let mut shear = rebar_material();
        shear.name = "SR235".into();
        shear.fy = fy;
        let mut sec = rc_section();
        sec.shear_rebar_material = Some(shear);
        beam_model(sec, concrete_material())
    };

    let model = make(None);
    let issues = nonlinear_input_issues(&model);
    assert_eq!(issues.len(), 1, "{:?}", issues);
    assert!(issues[0].contains("SR235"), "{}", issues[0]);
    assert!(issues[0].contains("fy"), "{}", issues[0]);
    assert!(ensure_nonlinear_input(&model).is_err());

    let model = make(Some(235.0));
    assert!(
        nonlinear_input_issues(&model).is_empty(),
        "{:?}",
        nonlinear_input_issues(&model)
    );
}

#[test]
fn shear_rebar_is_checked_after_the_main_bars() {
    let mut sec = rc_section_without_rebar_material();
    let mut shear = rebar_material();
    shear.name = "KH785".into();
    sec.shear_rebar_material = Some(shear);
    let facts = member(5, &sec, &concrete_material());
    assert_eq!(member_issue(&facts), Some(MemberIssue::RebarYieldUnresolved));

    let mut sec = rc_section();
    let mut shear = rebar_material();
    shear.name = "KH785".into();
    sec.shear_rebar_material = Some(shear);
    let facts = member(5, &sec, &concrete_material());
    assert_eq!(member_issue(&facts), Some(MemberIssue::ShearRebarGradeUnsupported));
    assert_eq!(
        member_strength_issue(&facts).unwrap(),
        "部材 ID 5 のせん断補強筋の材料「KH785」は未対応のグレードです。断面タブでせん断補強筋に対応グレード（SR235・SR295・SD295A・SD345 等）の材料を割り当ててください。非線形解析ではせん断補強筋の降伏強度 σwy からせん断終局耐力を算定します。"
    );

    let mut sec = steel_h_section();
    let mut shear = rebar_material();
    shear.name = "KH785".into();
    sec.shear_rebar_material = Some(shear);
    let facts = member(5, &sec, &steel_material());
    assert_eq!(member_issue(&facts), None);
}

#[test]
fn unassigned_shear_rebar_is_no_issue() {
    assert_eq!(shear_rebar_issue(&None), None);
    let ok = ShearRebarFacts {
        name: "SD295A".into(),
        grade_supported: true,
        fy_positive: true,
    };
    assert_eq!(shear_rebar_issue(&Some(ok)), None);
    let unsupported_without_fy = ShearRebarFacts {
        name: "KH785".into(),
        grade_supported: false,
        fy_positive: false,
    };
    assert_eq!(
        shear_rebar_issue(&Some(unsupported_without_fy)),
        Some(MemberIssue::ShearRebarGradeUnsupported)
    );
}

#[test]
fn test_issue_when_shapeless_member_lacks_positive_strength() {
    let mut mat = steel_material();
    mat.fy = None;
    let model = beam_model(shapeless(), mat);
    let issues = nonlinear_input_issues(&model);
    assert_eq!(issues.len(), 1, "{:?}", issues);
    assert!(issues[0].contains("fy"), "{}", issues[0]);

    let mut mat = steel_material();
    mat.fy = Some(0.0);
    let model = beam_model(shapeless(), mat);
    let issues = nonlinear_input_issues(&model);
    assert_eq!(issues.len(), 1, "{:?}", issues);
    assert!(issues[0].contains("fy"), "{}", issues[0]);
    assert!(ensure_nonlinear_input(&model).is_err());

    let mut mat = steel_material();
    mat.fy = None;
    mat.fc = Some(0.0);
    let model = beam_model(shapeless(), mat);
    let issues = nonlinear_input_issues(&model);
    assert_eq!(issues.len(), 1, "{:?}", issues);
    assert!(issues[0].contains("Fc"), "{}", issues[0]);
}

#[test]
fn test_issue_when_steel_shape_has_no_fy() {
    let mut mat = steel_material();
    mat.fy = None;
    mat.fc = Some(24.0);
    let model = beam_model(steel_h_section(), mat);
    let issues = nonlinear_input_issues(&model);
    assert_eq!(issues.len(), 1, "{:?}", issues);
    assert!(issues[0].contains("fy"), "{}", issues[0]);
    assert!(ensure_nonlinear_input(&model).is_err());
}

#[test]
fn test_issue_when_src_section_has_no_steel_yield() {
    let mut sec = src_section();
    sec.steel_material = None;
    let model = beam_model(sec, concrete_material());
    let issues = nonlinear_input_issues(&model);
    assert_eq!(issues.len(), 1, "{:?}", issues);
    assert!(issues[0].contains("降伏強度"), "{}", issues[0]);
}

#[test]
fn test_issue_when_member_has_no_material() {
    let mut sec = shapeless();
    sec.material = false;
    let model = beam_model(sec, steel_material());
    let issues = nonlinear_input_issues(&model);
    assert_eq!(issues.len(), 1, "{:?}", issues);
    assert!(
        issues[0].contains("材料が設定されていません"),
        "{}",
        issues[0]
    );
}

#[test]
fn test_elastic_only_element_kinds_are_not_checked() {
    let model = vec![ElementCheck::Elastic];
    assert!(nonlinear_input_issues(&model).is_empty());
}

#[test]
fn test_issue_when_rc_section_has_steel_material() {
    let model = beam_model(rc_section(), steel_material());
    let issues = nonlinear_input_issues(&model);
    assert_eq!(issues.len(), 1, "{:?}", issues);
    assert!(issues[0].contains("区分が鋼材"), "{}", issues[0]);
}

#[test]
fn test_issue_when_member_material_is_rebar() {
    let mut mat = concrete_material();
    mat.category = MaterialCategory::Rebar;
    mat.name = "SD345".into();
    let model = beam_model(rc_section(), mat);
    let issues = nonlinear_input_issues(&model);
    assert_eq!(issues.len(), 1, "{:?}", issues);
    assert!(issues[0].contains("区分が鉄筋"), "{}", issues[0]);
}

#[test]
fn test_error_message_lists_head_and_remaining_count() {
    let mut mat = concrete_material();
    mat.fc = None;
    let model: Vec<ElementCheck> = (0..8u32)
        .map(|i| ElementCheck::LineMember(member(i, &rc_section(), &mat)))
        .collect();
    assert_eq!(nonlinear_input_issues(&model).len(), 8);
    let msg = ensure_nonlinear_input(&model).expect_err("不備があればエラー");
    assert_eq!(msg.lines().count(), MAX_LISTED + 1);
    assert!(msg.contains("他 3 件"), "{}", msg);
}

#[test]
fn no_section_is_reported_first() {
    let mut facts = member(7, &rc_section(), &concrete_material());
    facts.section = None;
    facts.material = None;
    assert_eq!(member_issue(&facts), Some(MemberIssue::NoSection));
    assert_eq!(
        member_strength_issue(&facts).unwrap(),
        "部材 ID 7 に断面が設定されていません。部材タブで断面を割り当ててください。非線形解析では断面諸元から部材の剛性・終局耐力を算定します。"
    );
}

#[test]
fn non_positive_fc_message_shows_the_value() {
    let mut mat = concrete_material();
    mat.fc = Some(-3.5);
    let facts = member(12, &rc_section(), &mat);
    assert_eq!(member_issue(&facts), Some(MemberIssue::FcNonPositive));
    assert_eq!(
        member_strength_issue(&facts).unwrap(),
        "部材 ID 12 の材料「FC24」のコンクリート強度 Fc が -3.5 で 0 以下です。材料タブで Fc を設定してください。非線形解析では Fc から曲げひび割れ・曲げ降伏・せん断終局の各耐力を算定します。"
    );
}

#[test]
fn every_issue_kind_has_its_message() {
    let m = issue_message(MemberIssue::SteelFyUnset, 40, "SS400", "");
    assert_eq!(
        m,
        "部材 ID 40 は鋼材断面ですが、材料「SS400」に降伏強度 fy が設定されていません。材料タブで fy を設定してください。ファイバー断面は鋼材の降伏進展を追うため fy が必須です。"
    );
    let m = issue_message(MemberIssue::ShapelessNoStrength, 0, "X", "");
    assert!(m.starts_with("部材 ID 0 の材料「X」に正の降伏強度 fy もコンクリート強度 Fc も"));
    let m = issue_message(MemberIssue::ShapelessFcNonPositive, 1234567, "C", "0");
    assert!(m.starts_with("部材 ID 1234567 の材料「C」のコンクリート強度 Fc が 0 で 0 以下です。"));
    assert!(m.ends_with("非線形解析では Fc から部材の終局耐力を算定します。"));
}

#[test]
fn wall_issues_are_listed_in_element_order() {
    let model = vec![
        ElementCheck::Wall {
            issue: Some("wall A".to_string()),
        },
        ElementCheck::Elastic,
        ElementCheck::LineMember(member(3, &shapeless(), &steel_material())),
        ElementCheck::Wall { issue: None },
        ElementCheck::Wall {
            issue: Some("wall B".to_string()),
        },
    ];
    assert_eq!(nonlinear_input_issues(&model), vec!["wall A", "wall B"]);
    assert_eq!(ensure_nonlinear_input(&model), Err("wall A\nwall B".to_string()));
}

#[test]
fn five_issues_are_listed_without_a_count() {
    let model: Vec<ElementCheck> = (0..5)
        .map(|i| ElementCheck::Wall {
            issue: Some(format!("w{i}")),
        })
        .collect();
    assert_eq!(
        ensure_nonlinear_input(&model),
        Err("w0\nw1\nw2\nw3\nw4".to_string())
    );
    let model: Vec<ElementCheck> = (0..17)
        .map(|i| ElementCheck::Wall {
            issue: Some(format!("w{i}")),
        })
        .collect();
    assert_eq!(
        ensure_nonlinear_input(&model),
        Err("w0\nw1\nw2\nw3\nw4\n他 12 件".to_string())
    );
}

use origami_store::fixture::{
    angle_surface_cp, edge, flat_foldable_kome, live_frame_cp, split_square, vertex, zero_back_user_cp,
    ZeroBackWarmPath,
};
use origami_store::fold_target::{
    fold_target_faces, fold_target_info_from_analysis, material_crease_only_error_message,
    material_fold_target_info, unavailable_fold_target_info, FoldTargetInfo, FoldTargetStatus,
    FoldTargetTopAction, PleatAnalysis, PleatCountLimit, PleatSection, SpatialCreaseOnlyError, TopAction,
};
use origami_store::model::{CreasePattern, Edge, EdgeKind, Face, FoldStep, TechniqueKind, Vertex};
use origami_store::prng::SplitMix64;
use origami_store::requests::{
    check_fold_through_request, check_pose_and_grip, check_technique_request, technique_supported,
};
use origami_store::schema::{check_document_header, check_schema_version, SCHEMA_VERSION};
use origami_store::steps::check_insert_point;
use origami_store::surface::{
    filter_penetration_warnings, fold_hinges, frame_surface_rank_order, note_penetration,
    surface_order_source_label, verify_direct_crease_only_pose_is_unchanged, MaterialVertex, RankedFace,
    SurfaceOrderSource,
};
use origami_store::text::decimal_string;
use origami_store::model::{DisplaySettings, Document, Paper, Rgb};

fn document_with_steps(n: u32) -> Document {
    let cp = split_square();
    Document {
        paper: Paper { width_bits: 150f64.to_bits(), height_bits: 150f64.to_bits() },
        cp,
        display: DisplaySettings {
            front_color: Rgb { r: 237, g: 28, b: 36 },
            back_color: Rgb { r: 255, g: 255, b: 255 },
            grid_divisions: 8,
            soft_enabled: false,
            soft_stiffness_bits: 0.5f64.to_bits(),
            soft_pressure_bits: 0,
            overlap_prevention_enabled: false,
            penetration_prevention_enabled: true,
        },
        sequence: (0..n)
            .map(|id| FoldStep { id, kind: TechniqueKind::Simple, drivers: Vec::new(), note: String::new(), extra: String::new() })
            .collect(),
    }
}

// ---------------------------------------------------------------------------
// Saved-work header
// ---------------------------------------------------------------------------
#[test]
fn header_accepts_the_current_version() {
    assert_eq!(SCHEMA_VERSION, 1);
    assert_eq!(check_document_header(r#"{"schema_version": 1, "paper": {}}"#), Ok(()));
}

#[test]
fn header_rejects_newer_schema_version() {
    let err = check_document_header(r#"{"schema_version": 2}"#).unwrap_err();
    assert_eq!(err, "このファイルは新しい版のアプリで作られています。アプリを更新してください");
    assert!(err.contains("新しい版"));
}

#[test]
fn header_rejects_older_schema_version() {
    assert_eq!(
        check_document_header(r#"{"schema_version": 0}"#),
        Err("このファイルの形式(版0)には対応していません".to_string())
    );
}

#[test]
fn header_without_a_version_is_not_a_work() {
    for text in [r#"{"paper": {}}"#, r#"{"schema_version": "1"}"#, r#"{"schema_version": -1}"#, "[1, 2]"] {
        assert_eq!(check_document_header(text), Err("作品ファイルの形式ではありません".to_string()), "{text}");
    }
}

#[test]
fn header_of_text_that_is_not_json_reports_the_reader_error() {
    let err = check_document_header("これはJSONではない{{{").unwrap_err();
    assert!(err.starts_with("ファイルの内容を読み取れませんでした: "), "err={err}");
    assert!(err.len() > "ファイルの内容を読み取れませんでした: ".len(), "the reader's message follows");
}

#[test]
fn version_check_gives_each_error() {
    assert_eq!(check_schema_version(Some(1)), Ok(()));
    assert_eq!(check_schema_version(None), Err("作品ファイルの形式ではありません".to_string()));
    assert_eq!(
        check_schema_version(Some(u64::MAX)),
        Err("このファイルは新しい版のアプリで作られています。アプリを更新してください".to_string())
    );
}

// ---------------------------------------------------------------------------
// Fold targets
// ---------------------------------------------------------------------------
fn section(pairs: usize, count_limit: Option<PleatCountLimit>, top_action: Option<TopAction>) -> PleatSection {
    PleatSection { pairs, count_limit, top_action }
}

const UNAVAILABLE: &str = "この折り線で同時に折れるひだを確認できません。";
const CREASE_ONLY: &str = "いちばん上の紙が最後まで折り重なっていないため、今回はひだをまとめて折りません。いちばん上の紙に折り目だけを付け、下の紙と3Dの形は動かしません。";

#[test]
fn incomplete_top_pair_maps_to_the_exact_crease_only_response() {
    let analysis = PleatAnalysis {
        scalar_count: Some(0),
        sections: vec![section(0, None, Some(TopAction::CreaseOnlyTop))],
    };
    assert_eq!(
        fold_target_info_from_analysis(&analysis, &Vec::new()),
        FoldTargetInfo {
            status: FoldTargetStatus::CreaseOnlyTop,
            available_count: Some(0),
            reason: Some(CREASE_ONLY.to_string()),
            top_action: Some(FoldTargetTopAction::CreaseOnlyTop),
        }
    );
}

#[test]
fn ready_and_limited_sections_with_the_same_safe_count_report_limited() {
    let analysis = PleatAnalysis {
        scalar_count: Some(1),
        sections: vec![
            section(1, None, None),
            section(1, Some(PleatCountLimit::IncompleteBoundaryAfter { count: 1 }), None),
        ],
    };
    assert_eq!(
        fold_target_info_from_analysis(&analysis, &vec![true]),
        FoldTargetInfo {
            status: FoldTargetStatus::Limited,
            available_count: Some(1),
            reason: Some("上から1枚まで選べます。1枚目の下は、まだ最後まで折り重なっていません。".to_string()),
            top_action: None,
        }
    );
}

#[test]
fn equal_counts_with_different_surface_pair_identity_are_unavailable() {
    // The kernel finds no target faces for the count when the sections pair different sheets.
    let analysis = PleatAnalysis { scalar_count: Some(1), sections: vec![section(1, None, None), section(1, None, None)] };
    assert_eq!(fold_target_info_from_analysis(&analysis, &vec![false]), unavailable_fold_target_info());
}

#[test]
fn fold_target_verdicts_for_each_status() {
    let varies = fold_target_info_from_analysis(&PleatAnalysis { scalar_count: None, sections: vec![] }, &vec![]);
    assert_eq!(varies.status, FoldTargetStatus::Varies);
    assert_eq!(varies.reason.as_deref(), Some("折り線の場所によって、同時に折れるひだの枚数が異なります。"));

    let empty = fold_target_info_from_analysis(&PleatAnalysis { scalar_count: Some(2), sections: vec![] }, &vec![true, true]);
    assert_eq!(empty, unavailable_fold_target_info());

    let zero = fold_target_info_from_analysis(
        &PleatAnalysis { scalar_count: Some(0), sections: vec![section(0, None, None)] },
        &vec![],
    );
    assert_eq!(zero.reason.as_deref(), Some(UNAVAILABLE));

    let ready = fold_target_info_from_analysis(
        &PleatAnalysis { scalar_count: Some(2), sections: vec![section(2, None, None), section(2, None, None)] },
        &vec![true, true],
    );
    assert_eq!(
        ready,
        FoldTargetInfo { status: FoldTargetStatus::Ready, available_count: Some(2), reason: None, top_action: None }
    );

    let one_count_unsafe = fold_target_info_from_analysis(
        &PleatAnalysis { scalar_count: Some(2), sections: vec![section(2, None, None)] },
        &vec![true, false],
    );
    assert_eq!(one_count_unsafe.status, FoldTargetStatus::Unavailable);

    let too_few_answers = fold_target_info_from_analysis(
        &PleatAnalysis { scalar_count: Some(2), sections: vec![section(2, None, None)] },
        &vec![true],
    );
    assert_eq!(too_few_answers.status, FoldTargetStatus::Unavailable);

    let mismatched = fold_target_info_from_analysis(
        &PleatAnalysis { scalar_count: Some(2), sections: vec![section(1, None, None)] },
        &vec![true, true],
    );
    assert_eq!(mismatched.status, FoldTargetStatus::Unavailable);

    let limited12 = fold_target_info_from_analysis(
        &PleatAnalysis {
            scalar_count: Some(12),
            sections: vec![section(12, Some(PleatCountLimit::IncompleteBoundaryAfter { count: 12 }), None)],
        },
        &vec![true; 12],
    );
    assert_eq!(
        limited12.reason.as_deref(),
        Some("上から12枚まで選べます。12枚目の下は、まだ最後まで折り重なっていません。")
    );
}

#[test]
fn fold_target_faces_follow_the_verdict() {
    let ready = FoldTargetInfo { status: FoldTargetStatus::Ready, available_count: Some(1), reason: None, top_action: None };
    assert_eq!(fold_target_faces(&ready, Some(vec![3, 4])), Ok(vec![3, 4]));
    assert_eq!(fold_target_faces(&ready, None), Err("この枚数のひだを折れません。".to_string()));
    assert_eq!(fold_target_faces(&unavailable_fold_target_info(), Some(vec![1])), Err(UNAVAILABLE.to_string()));
    assert_eq!(material_fold_target_info(true).reason.as_deref(), Some(CREASE_ONLY));
    assert_eq!(material_fold_target_info(false), unavailable_fold_target_info());
}

#[test]
fn crease_only_errors_have_their_messages() {
    assert_eq!(
        material_crease_only_error_message(SpatialCreaseOnlyError::DegenerateMaterialLine),
        "折り線の2点が同じため、折り目を付けられません。"
    );
    assert_eq!(
        material_crease_only_error_message(SpatialCreaseOnlyError::PartialInsertion),
        "いちばん上の紙の全体へ折り目を付けられないため、変更しませんでした。"
    );
    for e in [
        SpatialCreaseOnlyError::AmbiguousTopSurface,
        SpatialCreaseOnlyError::MissingTopRelation,
        SpatialCreaseOnlyError::ZeroTopRelation,
        SpatialCreaseOnlyError::CompleteTopRelation,
        SpatialCreaseOnlyError::InvalidTopRelation,
        SpatialCreaseOnlyError::NotImplemented,
    ] {
        assert_eq!(
            material_crease_only_error_message(e),
            "いちばん上の紙が折り途中だと確認できないため、折り目を付けられません。"
        );
    }
}

// ---------------------------------------------------------------------------
// Requests
// ---------------------------------------------------------------------------
#[test]
fn fold_request_checks_come_in_order() {
    let doc = document_with_steps(2);
    assert_eq!(
        check_fold_through_request(&doc, 3, true, true, true),
        Err("挿入位置 3 が手順の数を超えています".to_string())
    );
    assert_eq!(
        check_fold_through_request(&doc, 2, true, true, true),
        Err("折るひだの枚数と個別の紙を同時には指定できません".to_string())
    );
    assert_eq!(
        check_fold_through_request(&doc, 2, false, true, true),
        Err("折るひだの枚数と3D上のつかみ位置を同時には指定できません".to_string())
    );
    assert_eq!(check_fold_through_request(&doc, 2, true, false, true), Ok(vec![]));
    assert_eq!(
        check_fold_through_request(&doc, 0, false, false, false),
        Ok(vec!["手順1の前に折りを挟みました。後ろの手順2個は折り直した形の上で再生し直しています(合わなくなった手順は飛ばして知らせます)".to_string()])
    );
    assert_eq!(
        check_pose_and_grip(true, true),
        Err("折った形の再現と3D上のつかみ位置を、同時には指定できません".to_string())
    );
    assert_eq!(check_pose_and_grip(true, false), Ok(()));
}

#[test]
fn technique_rejects_unsupported_kind_and_bad_input() {
    let doc = document_with_steps(0);
    let err = check_technique_request(&doc, 0, TechniqueKind::Pose).unwrap_err();
    assert!(err.contains("まだ選べません"), "err={err}");
    let err = check_technique_request(&doc, 2, TechniqueKind::Pleat).unwrap_err();
    assert!(err.contains("手順の数を超えています"), "err={err}");
    assert_eq!(check_technique_request(&doc, 0, TechniqueKind::Twist), Ok(vec![]));
    assert!(!technique_supported(TechniqueKind::Simple));
    assert!(!technique_supported(TechniqueKind::Rabbit));
    assert!(!technique_supported(TechniqueKind::Sink));
    assert!(technique_supported(TechniqueKind::OpenSink));
}

#[test]
fn insert_point_notice_names_the_later_steps() {
    let doc = document_with_steps(5);
    assert_eq!(check_insert_point(&doc, 5), Ok(vec![]));
    assert_eq!(
        check_insert_point(&doc, 3).unwrap(),
        vec!["手順4の前に折りを挟みました。後ろの手順2個は折り直した形の上で再生し直しています(合わなくなった手順は飛ばして知らせます)".to_string()]
    );
    assert_eq!(check_insert_point(&doc, 6), Err("挿入位置 6 が手順の数を超えています".to_string()));
}

// ---------------------------------------------------------------------------
// Stacking order, hinges, poses, warnings
// ---------------------------------------------------------------------------
#[test]
fn frame_surface_rank_order_rejects_non_permutations() {
    let mut faces = vec![RankedFace { face: 10, surface_rank: 1 }, RankedFace { face: 20, surface_rank: 0 }];
    assert_eq!(frame_surface_rank_order(&faces), Some(vec![20, 10]));
    faces[0].surface_rank = 0;
    assert_eq!(frame_surface_rank_order(&faces), None, "repeated rank");
    faces[0].surface_rank = 1;
    faces[1].face = 10;
    assert_eq!(frame_surface_rank_order(&faces), None, "repeated face");
}

#[test]
fn frame_surface_rank_order_needs_every_rank() {
    assert_eq!(frame_surface_rank_order(&vec![]), Some(vec![]));
    let all_zero = vec![RankedFace { face: 1, surface_rank: 0 }, RankedFace { face: 2, surface_rank: 0 }];
    assert_eq!(frame_surface_rank_order(&all_zero), None);
    let gap = vec![RankedFace { face: 1, surface_rank: 0 }, RankedFace { face: 2, surface_rank: 2 }];
    assert_eq!(frame_surface_rank_order(&gap), None);
    let three = vec![
        RankedFace { face: 7, surface_rank: 2 },
        RankedFace { face: 5, surface_rank: 0 },
        RankedFace { face: 9, surface_rank: 1 },
    ];
    assert_eq!(frame_surface_rank_order(&three), Some(vec![5, 9, 7]));
}

#[test]
fn source_labels() {
    assert_eq!(surface_order_source_label(None), "not-stamped");
    assert_eq!(surface_order_source_label(Some(SurfaceOrderSource::SolvedMotionPath)), "solved-motion-path");
    assert_eq!(surface_order_source_label(Some(SurfaceOrderSource::NoOverlap)), "no-overlap");
    assert_eq!(ZeroBackWarmPath::Active36WithPreferred.label(), "edge36-hard-plus-19-preferred");
    assert_eq!(ZeroBackWarmPath::Edge36Only.label(), "edge36-hard-only");
    assert_eq!(ZeroBackWarmPath::AllHardControl.label(), "all-20-hard-control");
}

#[test]
fn fold_hinges_are_fold_lines_shared_by_two_faces() {
    let cp = split_square();
    let faces = vec![
        Face { id: 0, vertices: vec![0, 1, 4, 5], edges: vec![0, 6, 4, 5] },
        Face { id: 1, vertices: vec![1, 2, 3, 4], edges: vec![1, 2, 3, 6] },
    ];
    assert_eq!(fold_hinges(&cp, &faces), vec![(6, EdgeKind::Mountain)]);
    assert_eq!(fold_hinges(&cp, &faces[..1].to_vec()), vec![]);
    let cp = CreasePattern {
        vertices: vec![],
        edges: vec![Edge { id: 3, v0: 0, v1: 1, kind: EdgeKind::Aux }, Edge { id: 4, v0: 0, v1: 1, kind: EdgeKind::Valley }],
        next_vertex_id: 0,
        next_edge_id: 5,
    };
    let faces = vec![
        Face { id: 0, vertices: vec![], edges: vec![3, 4] },
        Face { id: 1, vertices: vec![], edges: vec![3, 4, 4] },
    ];
    assert_eq!(fold_hinges(&cp, &faces), vec![], "three owners is no hinge; an aux line never is");
}

#[test]
fn a_pose_that_moved_is_refused() {
    let v = |vertex, x: f64| MaterialVertex { vertex, x_bits: x.to_bits(), y_bits: 0, z_bits: 0 };
    let before = vec![v(1, 0.5), v(2, 1.0)];
    assert_eq!(verify_direct_crease_only_pose_is_unchanged(&before, &vec![v(2, 1.0), v(1, 0.5)]), Ok(()));
    assert_eq!(
        verify_direct_crease_only_pose_is_unchanged(&before, &vec![v(2, 1.0), v(1, 0.5 + f64::EPSILON)]),
        Err("折り目を付ける前後で3Dの形が動いたため、変更しませんでした。".to_string())
    );
    assert!(verify_direct_crease_only_pose_is_unchanged(&before, &vec![v(2, 1.0)]).is_err());
    // The last entry for a vertex counts.
    assert_eq!(verify_direct_crease_only_pose_is_unchanged(&before, &vec![v(1, 0.0), v(1, 0.5), v(2, 1.0)]), Ok(()));
    assert!(verify_direct_crease_only_pose_is_unchanged(&before, &vec![v(1, 0.5), v(1, 0.0), v(2, 1.0)]).is_err());
}

#[test]
fn fold_penetration_warning_follows_the_detection_setting() {
    let pen = "penetration".to_string();
    let fold_pen = "fold penetration".to_string();
    let initial = vec!["a".to_string(), pen.clone(), "b".to_string(), fold_pen.clone(), pen.clone()];
    let mut kept = initial.clone();
    filter_penetration_warnings(&mut kept, true, &pen, &fold_pen);
    assert_eq!(kept, initial);
    let mut filtered = initial.clone();
    filter_penetration_warnings(&mut filtered, false, &pen, &fold_pen);
    assert_eq!(filtered, vec!["a".to_string(), "b".to_string()]);

    let mut ws = vec!["a".to_string()];
    assert!(!note_penetration(&mut ws, false, &pen));
    assert!(note_penetration(&mut ws, true, &pen));
    assert!(!note_penetration(&mut ws, true, &pen), "only once");
    assert_eq!(ws, vec!["a".to_string(), pen.clone()]);
}

// ---------------------------------------------------------------------------
// Generator, fixtures, text
// ---------------------------------------------------------------------------
#[test]
fn splitmix64_reference_outputs() {
    let mut g = SplitMix64(0);
    assert_eq!(g.next_u64(), 0xE220_A839_7B1D_CDAF);
    assert_eq!(g.next_u64(), 0x6E78_9E6A_A1B9_65F4);
    assert_eq!(g.0, 0x9E37_79B9_7F4A_7C15u64.wrapping_mul(2));
    let mut a = SplitMix64(42);
    let mut b = SplitMix64(42);
    for _ in 0..100 {
        let x = a.next_below(10);
        assert!(x < 10);
        assert_eq!(x, b.next_below(10), "the same seed gives the same sequence");
    }
}

fn check_numbered(cp: &CreasePattern, vertices: usize, edges: usize) {
    assert_eq!(cp.vertices.len(), vertices);
    assert_eq!(cp.edges.len(), edges);
    assert_eq!(cp.next_vertex_id as usize, vertices);
    for (i, v) in cp.vertices.iter().enumerate() {
        assert_eq!(v.id as usize, i);
    }
    for e in &cp.edges {
        assert!((e.v0 as usize) < vertices && (e.v1 as usize) < vertices && e.v0 != e.v1);
        assert!(e.id < cp.next_edge_id);
    }
}

#[test]
fn fixtures_are_numbered_squares() {
    check_numbered(&split_square(), 6, 7);
    check_numbered(&flat_foldable_kome(), 9, 16);
    check_numbered(&angle_surface_cp(), 14, 29);
    check_numbered(&zero_back_user_cp(), 13, 28);
    check_numbered(&live_frame_cp(), 13, 28);
    let kome = flat_foldable_kome();
    assert_eq!(kome.edges.iter().filter(|e| e.kind == EdgeKind::Mountain).count(), 3);
    assert_eq!(kome.edges.iter().filter(|e| e.kind == EdgeKind::Valley).count(), 5);
    assert_eq!(kome.vertices[8], vertex(8, 0.5f64.to_bits(), 0.5f64.to_bits()));
    assert_eq!(split_square().edges[6], edge(6, 1, 4, EdgeKind::Mountain));
    let z = zero_back_user_cp();
    assert_eq!(f64::from_bits(z.vertices[9].x_bits), 0.792_893_218_813_452_5);
    assert_eq!(Vertex { id: 11, x_bits: 0.207_106_781_186_547_52f64.to_bits(), y_bits: 0.5f64.to_bits() }, z.vertices[11]);
}

#[test]
fn decimal_rendering() {
    assert_eq!(decimal_string(0), "0");
    assert_eq!(decimal_string(7), "7");
    assert_eq!(decimal_string(1024), "1024");
    assert_eq!(decimal_string(u64::MAX), u64::MAX.to_string());
}

// ---------------------------------------------------------------------------
// Replay from scratch
// ---------------------------------------------------------------------------
use origami_store::replay_check::{drift_pairs, verify_cold_crease_only_replay, ColdReplay, Drift, Point3, SpatialFace};

fn p3(x: f64, y: f64, z: f64) -> Point3 {
    Point3 { x_bits: x.to_bits(), y_bits: y.to_bits(), z_bits: z.to_bits() }
}

fn mv(vertex: u32, x: f64, y: f64, z: f64) -> MaterialVertex {
    MaterialVertex { vertex, x_bits: x.to_bits(), y_bits: y.to_bits(), z_bits: z.to_bits() }
}

fn cold_fixture() -> (Vec<MaterialVertex>, Vec<Face>, ColdReplay) {
    let pose = vec![mv(1, 0.0, 0.0, 0.0), mv(2, 1.0, 0.0, 0.0), mv(3, 1.0, 1.0, 0.0)];
    let material = vec![
        Face { id: 0, vertices: vec![1, 2], edges: vec![] },
        Face { id: 1, vertices: vec![2, 3], edges: vec![] },
    ];
    let cold = ColdReplay {
        skipped: vec![],
        converged: true,
        best_effort: false,
        faces: vec![
            SpatialFace { face: 1, polygon: vec![p3(1.0, 0.0, 0.0), p3(1.0, 1.0, 0.0)] },
            SpatialFace { face: 0, polygon: vec![p3(0.0, 0.0, 0.0), p3(1.0, 0.0, 0.0)] },
        ],
    };
    (pose, material, cold)
}

fn within(cold: &ColdReplay) -> Vec<Vec<Drift>> {
    cold.faces.iter().map(|f| vec![Drift::Within; f.polygon.len()]).collect()
}

#[test]
fn cold_replay_that_matches_is_accepted() {
    let (pose, material, cold) = cold_fixture();
    let pairs = drift_pairs(&pose, &material, &cold.faces);
    assert_eq!(pairs[0], vec![Some((p3(1.0, 0.0, 0.0), p3(1.0, 0.0, 0.0))), Some((p3(1.0, 1.0, 0.0), p3(1.0, 1.0, 0.0)))]);
    assert_eq!(pairs[1][0], Some((p3(0.0, 0.0, 0.0), p3(0.0, 0.0, 0.0))));
    let drift = within(&cold);
    assert_eq!(verify_cold_crease_only_replay(&pose, &pose, &vec![7, 8], &material, &cold, &drift), Ok(()));
}

#[test]
fn cold_replay_errors_come_in_order() {
    let (pose, material, cold) = cold_fixture();
    let drift = within(&cold);
    let check = |pose: &Vec<MaterialVertex>, direct: &Vec<MaterialVertex>, material: &Vec<Face>, cold: &ColdReplay, drift: &Vec<Vec<Drift>>| {
        verify_cold_crease_only_replay(pose, direct, &vec![7, 8], material, cold, drift).unwrap_err()
    };

    let skipped = ColdReplay { skipped: vec![3, 8], converged: false, ..cold_fixture().2 };
    assert_eq!(check(&pose, &pose, &material, &skipped, &drift), "保存した折った形と折り目を読み直せないため、変更しませんでした。");

    let unconverged = ColdReplay { skipped: vec![3], converged: false, ..cold_fixture().2 };
    assert_eq!(check(&pose, &pose, &material, &unconverged, &drift), "保存した3Dの形を最後まで読み直せないため、変更しませんでした。");
    let best_effort = ColdReplay { best_effort: true, ..cold_fixture().2 };
    assert_eq!(check(&pose, &pose, &material, &best_effort, &drift), "保存した3Dの形を最後まで読み直せないため、変更しませんでした。");

    let one_face = vec![material[0].clone()];
    assert_eq!(check(&pose, &pose, &one_face, &cold, &drift), "保存した3Dの紙面が過不足なく揃わないため、変更しませんでした。");

    let mut repeated = cold_fixture().2;
    repeated.faces[1] = SpatialFace { face: 1, polygon: vec![p3(1.0, 0.0, 0.0), p3(1.0, 1.0, 0.0)] };
    assert_eq!(check(&pose, &pose, &material, &repeated, &within(&repeated)), "保存した3Dの紙面が重複しているため、変更しませんでした。");

    let mut unknown = cold_fixture().2;
    unknown.faces[1].face = 9;
    assert_eq!(check(&pose, &pose, &material, &unknown, &drift), "保存した3Dの紙面を読み直せないため、変更しませんでした。");
    let mut short = cold_fixture().2;
    short.faces[0].polygon.pop();
    assert_eq!(check(&pose, &pose, &material, &short, &within(&short)), "保存した3Dの紙面を読み直せないため、変更しませんでした。");

    let direct_missing = vec![mv(1, 0.0, 0.0, 0.0), mv(2, 1.0, 0.0, 0.0)];
    assert_eq!(check(&pose, &direct_missing, &material, &cold, &drift), "折り目を付けた直後の3Dの形を確認できないため、変更しませんでした。");
    let direct_moved = vec![mv(1, 0.0, 0.0, 0.0), mv(2, 1.0, 0.0, 0.0), mv(3, 1.0, 1.0, 1e-300)];
    assert_eq!(check(&pose, &direct_moved, &material, &cold, &drift), "折り目を付ける処理で3Dの形が動いたため、変更しませんでした。");

    let mut non_finite = drift.clone();
    non_finite[1][1] = Drift::NonFinite;
    assert_eq!(check(&pose, &pose, &material, &cold, &non_finite), "保存した3Dの形を有限な位置で読み直せないため、変更しませんでした。");

    let mut extra_pose = pose.clone();
    extra_pose.push(mv(4, 0.0, 1.0, 0.0));
    assert_eq!(check(&extra_pose, &extra_pose, &material, &cold, &drift), "保存した3Dの形に元の紙の点が揃わないため、変更しませんでした。");

    let mut beyond = drift.clone();
    beyond[0][0] = Drift::Beyond;
    assert_eq!(check(&pose, &pose, &material, &cold, &beyond), "保存した3Dの形で元の紙の点が動いたため、変更しませんでした。");
}

// ---------------------------------------------------------------------------
// Top sheet
// ---------------------------------------------------------------------------
use origami_store::top_surface::{top_surface, TopSurface};

fn strip_faces() -> Vec<Face> {
    vec![
        Face { id: 0, vertices: vec![], edges: vec![1, 10] },
        Face { id: 1, vertices: vec![], edges: vec![10, 11] },
        Face { id: 2, vertices: vec![], edges: vec![11, 12] },
        Face { id: 3, vertices: vec![], edges: vec![12] },
    ]
}

fn point() -> (u64, u64) {
    (0.25f64.to_bits(), 0.5f64.to_bits())
}

#[test]
fn top_surface_follows_unfolded_hinges() {
    let angles = vec![(10, 0.0f64.to_bits()), (11, 90.0f64.to_bits()), (12, (-0.0f64).to_bits())];
    assert_eq!(
        top_surface(point(), &angles, &strip_faces(), &vec![0]),
        Ok(TopSurface { surface_faces: vec![0, 1], boundary: vec![(11, Some(90.0f64.to_bits()))] })
    );
    assert_eq!(
        top_surface(point(), &angles, &strip_faces(), &vec![3, 2]),
        Ok(TopSurface { surface_faces: vec![2, 3], boundary: vec![(11, Some(90.0f64.to_bits()))] }),
        "negative zero is an unfolded hinge too"
    );
    assert_eq!(
        top_surface(point(), &angles, &strip_faces(), &vec![0, 2]),
        Err(SpatialCreaseOnlyError::AmbiguousTopSurface),
        "a point over two sheets is ambiguous"
    );
    let no_angle_for_11 = vec![(10, 0.0f64.to_bits())];
    assert_eq!(
        top_surface(point(), &no_angle_for_11, &strip_faces(), &vec![1]),
        Ok(TopSurface { surface_faces: vec![0, 1], boundary: vec![(11, None)] })
    );
}

#[test]
fn top_surface_rejects_bad_input_in_order() {
    let angles = vec![(10, 0.0f64.to_bits())];
    assert_eq!(
        top_surface((f64::NAN.to_bits(), 0), &vec![(10, f64::NAN.to_bits())], &strip_faces(), &vec![]),
        Err(SpatialCreaseOnlyError::NonFiniteInput)
    );
    assert_eq!(
        top_surface((0, f64::INFINITY.to_bits()), &angles, &strip_faces(), &vec![0]),
        Err(SpatialCreaseOnlyError::NonFiniteInput)
    );
    assert_eq!(
        top_surface(point(), &vec![(10, f64::INFINITY.to_bits())], &strip_faces(), &vec![0]),
        Err(SpatialCreaseOnlyError::InvalidTopRelation)
    );
    assert_eq!(
        top_surface(point(), &vec![(10, 0.0f64.to_bits()), (10, 1.0f64.to_bits())], &strip_faces(), &vec![0]),
        Err(SpatialCreaseOnlyError::InvalidTopRelation)
    );
    assert!(top_surface(point(), &vec![(10, 0.0f64.to_bits()), (10, 0.0f64.to_bits())], &strip_faces(), &vec![0]).is_ok());
    let mut three_owners = strip_faces();
    three_owners[3].edges.push(10);
    assert_eq!(
        top_surface(point(), &angles, &three_owners, &vec![]),
        Err(SpatialCreaseOnlyError::AmbiguousTopSurface)
    );
    assert_eq!(
        top_surface(point(), &angles, &strip_faces(), &vec![]),
        Err(SpatialCreaseOnlyError::MaterialKeepSidePointOutsidePaper)
    );
}

// ---------------------------------------------------------------------------
// Poses and flat-fold notices
// ---------------------------------------------------------------------------
use origami_store::poses::{
    flat_hinges, flat_target, pose_flat_fold_notice_intersects, pose_step_from_input, requested_pattern,
    PoseDriver, FLAT_HIGH_BITS, FLAT_LOW_BITS,
};
use origami_store::model::DriverLine;
use origami_store::surface::{apply_layer_order, replay_surface_rank_order, LayeredFace};
use origami_store::top_surface::observe_from_top;

fn driver(edge_id: u32, angle: f64) -> PoseDriver {
    PoseDriver { edge_id, target_angle_bits: angle.to_bits() }
}

#[test]
fn pose_step_keeps_requested_angles_on_their_segments() {
    let cp = split_square();
    let step = pose_step_from_input(&cp, &vec![driver(6, -180.0), driver(0, 90.0)]).unwrap();
    assert_eq!(step.id, 0);
    assert_eq!(step.kind, TechniqueKind::Pose);
    assert_eq!(step.note, "折った形を再現してから折り目を付ける");
    assert_eq!(
        step.drivers,
        vec![
            DriverLine {
                ax_bits: 0.5f64.to_bits(),
                ay_bits: 0,
                bx_bits: 0.5f64.to_bits(),
                by_bits: 1.0f64.to_bits(),
                target_angle_bits: (-180.0f64).to_bits(),
            },
            DriverLine { ax_bits: 0, ay_bits: 0, bx_bits: 0.5f64.to_bits(), by_bits: 0, target_angle_bits: 90.0f64.to_bits() },
        ]
    );
    assert_eq!(
        pose_step_from_input(&cp, &vec![driver(6, 180.0), driver(99, 180.0)]),
        Err("折った形を再現する折り目が見つかりません".to_string())
    );
    let mut broken = split_square();
    broken.edges.push(edge(7, 1, 42, EdgeKind::Valley));
    assert_eq!(
        pose_step_from_input(&broken, &vec![driver(7, 180.0)]),
        Err("折った形を再現する折り目の端が見つかりません".to_string())
    );
}

#[test]
fn flat_target_matches_the_floating_point_test() {
    let float_test = |t: f64| t.is_finite() && (t.abs() - 180.0).abs() <= 1e-6;
    let mut samples = vec![
        180.0, -180.0, 179.999999, 180.000001, 179.9999989, 180.0000011, 0.0, 90.0, f64::NAN, f64::INFINITY,
        f64::NEG_INFINITY, -179.9999995, 360.0,
    ];
    for base in [FLAT_LOW_BITS, FLAT_HIGH_BITS, 180.0f64.to_bits()] {
        for d in 0..64u64 {
            samples.push(f64::from_bits(base - d));
            samples.push(f64::from_bits(base + d));
            samples.push(-f64::from_bits(base + d));
        }
    }
    for t in samples {
        assert_eq!(flat_target(t.to_bits()), float_test(t), "t={t:e}");
    }
}

#[test]
fn pose_flat_fold_notice_uses_contact_unless_every_crease_is_flat() {
    let kome = flat_foldable_kome();
    let every_flat: Vec<PoseDriver> =
        (8..16).map(|e| driver(e, if e % 2 == 0 { 180.0 } else { -180.0 })).collect();
    assert!(pose_flat_fold_notice_intersects(&kome, &every_flat, false, true), "a final intersection always counts");
    assert!(!pose_flat_fold_notice_intersects(&kome, &every_flat, false, false));
    assert!(!pose_flat_fold_notice_intersects(&kome, &every_flat, true, false), "a full flat sweep may touch half-way");
    let mut partial = every_flat.clone();
    partial.push(driver(9, 90.0));
    assert!(pose_flat_fold_notice_intersects(&kome, &partial, true, false), "the latest request for a hinge counts");
    assert!(pose_flat_fold_notice_intersects(&kome, &every_flat[1..].to_vec(), true, false));
    let border_only = CreasePattern {
        vertices: vec![],
        edges: vec![edge(0, 0, 1, EdgeKind::Border)],
        next_vertex_id: 2,
        next_edge_id: 1,
    };
    assert!(pose_flat_fold_notice_intersects(&border_only, &vec![], true, false), "no crease, no flat request");
}

#[test]
fn flat_notice_pattern_marks_only_flat_requests() {
    let kome = flat_foldable_kome();
    let targets = vec![driver(8, 180.0), driver(9, 45.0), driver(10, -180.0), driver(0, 180.0), driver(8, 179.9999999)];
    let hinges = flat_hinges(&kome, &targets);
    assert_eq!(hinges, vec![(8, 179.9999999f64.to_bits()), (10, (-180.0f64).to_bits())]);
    let requested = requested_pattern(&kome, &targets);
    let kind = |id: u32| requested.edges.iter().find(|e| e.id == id).unwrap().kind;
    assert_eq!(kind(0), EdgeKind::Border, "borders stay");
    assert_eq!(kind(8), EdgeKind::Mountain);
    assert_eq!(kind(10), EdgeKind::Valley);
    assert_eq!(kind(9), EdgeKind::Aux);
    assert_eq!(kind(15), EdgeKind::Aux);
    assert_eq!(requested.vertices, kome.vertices);
    assert!(flat_hinges(&kome, &vec![driver(9, 45.0)]).is_empty());
}

#[test]
fn replay_order_needs_derived_geometry_and_layers_follow_order() {
    let faces = vec![RankedFace { face: 4, surface_rank: 1 }, RankedFace { face: 2, surface_rank: 0 }];
    assert_eq!(replay_surface_rank_order(true, &faces), Some(vec![2, 4]));
    assert_eq!(replay_surface_rank_order(false, &faces), None);

    let mut layered = vec![
        LayeredFace { face: 1, layer: 9 },
        LayeredFace { face: 2, layer: 9 },
        LayeredFace { face: 3, layer: 9 },
    ];
    apply_layer_order(&vec![3, 1, 3], &mut layered);
    assert_eq!(
        layered,
        vec![LayeredFace { face: 1, layer: 1 }, LayeredFace { face: 2, layer: 9 }, LayeredFace { face: 3, layer: 2 }]
    );
}

#[test]
fn the_top_sheet_is_observed_once() {
    let mut slot = Some(7);
    assert_eq!(observe_from_top(&mut slot, 1), Err(SpatialCreaseOnlyError::AmbiguousTopSurface));
    assert_eq!(slot, Some(7));
    assert_eq!(observe_from_top(&mut slot, 0), Ok(7));
    assert_eq!(observe_from_top(&mut slot, 0), Err(SpatialCreaseOnlyError::AmbiguousTopSurface));
}

use origami_store::frames::{
    angle_surface_angles, complete_order, face_polygon, frame_at_angles, live_frame_angles, live_frame_frame, triangulations, zero_back_apply_overlap,
    zero_back_user_angles, zero_back_user_angles_now, zero_back_user_frame, FrameKernel, RankedFrame, Triangulator,
};
use origami_store::kernel::Point;
use std::collections::HashMap;

fn degrees(table: &HashMap<u32, u64>) -> Vec<(u32, f64)> {
    let mut out: Vec<(u32, f64)> = table.iter().map(|(k, v)| (*k, f64::from_bits(*v))).collect();
    out.sort_by_key(|e| e.0);
    out
}

#[test]
fn measured_angles_keep_their_binary64_values() {
    let live = degrees(&live_frame_angles());
    let expected_live = [
        (17, -180.0), (18, -180.0), (19, -178.265_130_385_534_97), (20, 180.0), (21, 180.0),
        (22, -3.062_204_584_590_538_5e-15), (23, 180.0), (24, 180.0), (25, 180.0), (26, 180.0),
        (27, -5.233_885_113_024_099e-15), (28, 180.0), (29, 180.0), (30, 179.999_999_999_999_97),
        (31, -178.265_130_385_534_97), (32, 180.0), (33, 180.0), (34, 180.0),
        (35, -1.734_869_614_465_027), (36, -180.0),
    ];
    assert_eq!(live, expected_live.to_vec());
    let user = degrees(&zero_back_user_angles());
    let expected_user = [
        (17, -179.999_999_999_999_97), (18, -179.999_999_999_999_97), (19, 180.0),
        (20, -92.999_999_999_999_99), (21, 180.0), (22, 180.0), (23, 180.0),
        (24, -92.999_999_999_999_99), (25, 180.0), (26, 180.0), (27, -178.693_545_755_435_96),
        (28, 180.0), (29, 180.0), (30, 180.0), (31, -178.693_545_755_435_96),
        (32, 179.999_999_999_999_97), (33, 180.0), (34, 180.0), (35, -1.306_454_244_564_035_5),
        (36, -87.0),
    ];
    assert_eq!(user, expected_user.to_vec());
    let now = degrees(&zero_back_user_angles_now());
    let expected_now = [
        (17, -179.999_999_999_999_97), (18, -179.999_999_999_999_97), (19, 180.0),
        (20, -97.999_999_999_999_97), (21, 180.0), (22, 180.0), (23, 180.0),
        (24, -98.000_000_000_000_01), (25, 180.0), (26, 180.0), (27, -179.128_990_221_440_23),
        (28, 179.999_999_999_999_97), (29, 180.0), (30, 180.0), (31, -179.128_990_221_440_23),
        (32, 180.0), (33, 180.0), (34, 180.0), (35, -0.871_009_778_559_739_8), (36, -82.0),
    ];
    assert_eq!(now, expected_now.to_vec());
    let surface = degrees(&angle_surface_angles((-1.5f64).to_bits()));
    let expected_surface = [
        (17, -180.0), (18, -180.0), (20, -95.0), (21, 180.0), (22, 180.0), (23, 180.0),
        (24, -95.0), (25, 180.0), (31, -123.0), (32, 180.0), (34, 180.0), (37, -123.0),
        (39, 180.0), (40, 180.0), (42, -57.0), (43, -1.5),
    ];
    assert_eq!(surface, expected_surface.to_vec());
    let differing: Vec<u32> = user.iter().zip(now.iter()).filter(|(a, b)| a.1 != b.1).map(|(a, _)| a.0).collect();
    assert_eq!(differing, vec![20, 24, 27, 28, 31, 32, 35, 36]);
}

/// Records what it is asked and stacks the faces in the order given at construction.
struct RecordingFrames {
    ranks: Vec<RankedFace>,
}

impl FrameKernel for RecordingFrames {
    type Frame = Vec<String>;

    fn folded_frame(&self, _cp: &CreasePattern, _faces: &Vec<Face>, angles: &HashMap<u32, u64>) -> RankedFrame<Vec<String>> {
        RankedFrame { frame: vec![format!("{} hinges", angles.len())], ranks: self.ranks.clone() }
    }
    fn prevent_overlap_with_order(&self, _cp: &CreasePattern, _faces: &Vec<Face>, frame: &mut Vec<String>, order: &Vec<u32>) {
        frame.push(format!("order {:?}", order));
    }
}

fn ranked(pairs: &[(u32, u32)]) -> Vec<RankedFace> {
    pairs.iter().map(|(face, surface_rank)| RankedFace { face: *face, surface_rank: *surface_rank }).collect()
}

#[test]
fn fixture_frames_keep_their_stack_order_or_are_refused() {
    let cp = zero_back_user_cp();
    let kernel = RecordingFrames { ranks: ranked(&[(5, 1), (3, 0)]) };
    assert_eq!(
        live_frame_frame(&kernel, &cp, &Vec::new()),
        Some(vec!["20 hinges".to_string(), "order [3, 5]".to_string()])
    );
    assert_eq!(
        zero_back_user_frame(&kernel, &cp, &Vec::new()),
        Some(vec!["20 hinges".to_string(), "order [3, 5]".to_string()])
    );
    let broken = RecordingFrames { ranks: ranked(&[(5, 0), (3, 0)]) };
    assert_eq!(live_frame_frame(&broken, &cp, &Vec::new()), None);
    assert_eq!(frame_at_angles(&broken, &cp, &Vec::new(), &HashMap::new()), None);
    assert!(complete_order(&ranked(&[(5, 1), (3, 0)])));
    assert!(!complete_order(&ranked(&[(5, 0), (3, 0)])));
    assert!(!complete_order(&ranked(&[(5, 1), (5, 0)])));
    let frame = RankedFrame { frame: Vec::new(), ranks: ranked(&[(9, 0)]) };
    assert_eq!(zero_back_apply_overlap(&kernel, &cp, &Vec::new(), frame), vec!["order [9]".to_string()]);
}

/// Splits a polygon into a fan from its first corner.
struct Fan;

impl Triangulator for Fan {
    fn triangulate(&self, polygon: &Vec<Point>) -> Vec<[usize; 3]> {
        (1..polygon.len().saturating_sub(1)).map(|i| [0, i, i + 1]).collect()
    }
}

#[test]
fn faces_are_split_into_triangles_over_their_corners() {
    let cp = split_square();
    let faces = vec![
        Face { id: 4, vertices: vec![0, 1, 2, 3], edges: Vec::new() },
        Face { id: 2, vertices: vec![2, 3, 1], edges: Vec::new() },
    ];
    let polygon = face_polygon(&cp, &faces[1]);
    let at = |v: u32| {
        let x = cp.vertices.iter().rev().find(|p| p.id == v).unwrap();
        Point { x_bits: x.x_bits, y_bits: x.y_bits }
    };
    assert_eq!(polygon, vec![at(2), at(3), at(1)]);
    let triangles = triangulations(&Fan, &cp, &faces);
    assert_eq!(triangles.keys().copied().collect::<Vec<_>>(), vec![2, 4]);
    assert_eq!(triangles[&4], vec![[0, 1, 2], [0, 2, 3]]);
    assert_eq!(triangles[&2], vec![[0, 1, 2]]);
}

fn flat_fold_notice_user_cp() -> CreasePattern {
    let v = |id: u32, x: f64, y: f64| Vertex { id, x_bits: x.to_bits(), y_bits: y.to_bits() };
    let e = |id: u32, v0: u32, v1: u32, kind: EdgeKind| Edge { id, v0, v1, kind };
    CreasePattern {
        vertices: vec![
            v(0, 0.0, 0.0),
            v(1, 1.0, 0.0),
            v(2, 1.0, 1.0),
            v(3, 0.0, 1.0),
            v(4, 0.0, 0.5),
            v(5, 1.0, 0.5),
            v(6, 0.5, 1.0),
            v(7, 0.5, 0.0),
            v(8, 0.5, 0.5),
            v(9, 0.7928932188134525, 0.5),
            v(10, 0.5, 0.20710678118654752),
            v(11, 0.25, 0.5),
            v(12, 0.5, 0.7928932188134525),
        ],
        edges: vec![
            e(4, 3, 4, EdgeKind::Border),
            e(5, 4, 0, EdgeKind::Border),
            e(6, 1, 5, EdgeKind::Border),
            e(7, 5, 2, EdgeKind::Border),
            e(9, 2, 6, EdgeKind::Border),
            e(10, 6, 3, EdgeKind::Border),
            e(11, 0, 7, EdgeKind::Border),
            e(12, 7, 1, EdgeKind::Border),
            e(17, 0, 8, EdgeKind::Valley),
            e(18, 8, 2, EdgeKind::Valley),
            e(19, 8, 9, EdgeKind::Mountain),
            e(20, 9, 5, EdgeKind::Mountain),
            e(21, 2, 9, EdgeKind::Mountain),
            e(22, 9, 1, EdgeKind::Mountain),
            e(23, 8, 10, EdgeKind::Mountain),
            e(24, 10, 7, EdgeKind::Mountain),
            e(25, 0, 10, EdgeKind::Mountain),
            e(26, 10, 1, EdgeKind::Mountain),
            e(27, 4, 11, EdgeKind::Mountain),
            e(28, 11, 8, EdgeKind::Mountain),
            e(29, 0, 11, EdgeKind::Mountain),
            e(30, 11, 3, EdgeKind::Mountain),
            e(31, 6, 12, EdgeKind::Mountain),
            e(32, 12, 8, EdgeKind::Mountain),
            e(33, 2, 12, EdgeKind::Mountain),
            e(34, 12, 3, EdgeKind::Mountain),
            e(35, 11, 12, EdgeKind::Valley),
            e(36, 10, 9, EdgeKind::Valley),
        ],
        next_vertex_id: 13,
        next_edge_id: 37,
    }
}

fn user_flat_targets() -> Vec<PoseDriver> {
    [21, 22, 25, 26, 29, 30, 33, 34]
        .into_iter()
        .map(|edge_id| PoseDriver { edge_id, target_angle_bits: 180.0f64.to_bits() })
        .collect()
}

fn all_crease_flat_targets(cp: &CreasePattern) -> Vec<PoseDriver> {
    cp.edges
        .iter()
        .filter_map(|edge| {
            let target: f64 = match edge.kind {
                EdgeKind::Mountain => 180.0,
                EdgeKind::Valley => -180.0,
                EdgeKind::Border | EdgeKind::Aux => return None,
            };
            Some(PoseDriver { edge_id: edge.id, target_angle_bits: target.to_bits() })
        })
        .collect()
}

#[test]
fn pose_flat_fold_notice_filters_only_transient_full_sweep_contacts() {
    let cp = flat_fold_notice_user_cp();
    let partial_targets = user_flat_targets();
    assert!(pose_flat_fold_notice_intersects(&cp, &partial_targets, true, false));
    assert!(!pose_flat_fold_notice_intersects(&cp, &partial_targets, false, false));

    let all_targets = all_crease_flat_targets(&cp);
    assert_eq!(all_targets.len(), 20);
    assert!(
        !pose_flat_fold_notice_intersects(&cp, &all_targets, true, false),
        "a contact met only half-way through a sweep of every crease to its end is not noticed"
    );
    assert!(
        pose_flat_fold_notice_intersects(&cp, &all_targets, false, true),
        "an intersection left after the correction is always noticed"
    );

    // The 150 mm sheet with one auxiliary diagonal and no mountain or valley crease.
    let corner = |id: u32, x: f64, y: f64| Vertex { id, x_bits: x.to_bits(), y_bits: y.to_bits() };
    let aux_only = CreasePattern {
        vertices: vec![corner(0, 0.0, 0.0), corner(1, 1.0, 0.0), corner(2, 1.0, 1.0), corner(3, 0.0, 1.0)],
        edges: vec![
            Edge { id: 0, v0: 0, v1: 1, kind: EdgeKind::Border },
            Edge { id: 1, v0: 1, v1: 2, kind: EdgeKind::Border },
            Edge { id: 2, v0: 2, v1: 3, kind: EdgeKind::Border },
            Edge { id: 3, v0: 3, v1: 0, kind: EdgeKind::Border },
            Edge { id: 4, v0: 0, v1: 2, kind: EdgeKind::Aux },
        ],
        next_vertex_id: 4,
        next_edge_id: 5,
    };
    let aux_target = aux_only
        .edges
        .iter()
        .find(|edge| edge.kind == EdgeKind::Aux)
        .map(|edge| PoseDriver { edge_id: edge.id, target_angle_bits: 180.0f64.to_bits() })
        .expect("an auxiliary line");
    assert!(
        pose_flat_fold_notice_intersects(&aux_only, &vec![aux_target], true, false),
        "with no mountain or valley crease, an empty set is not a sweep of every crease"
    );
}

use origami_store::store::FoldImportError;

#[test]
fn fold_import_failures_are_told_in_user_facing_words() {
    assert_eq!(
        FoldImportError::Parse.message(),
        "ほかの折り紙ソフトのファイルを読み取れませんでした。ファイルの内容を確認してください。"
    );
    assert_eq!(FoldImportError::Conversion.message(), "このファイルには、ORIGAMI3で扱えない内容があります。");
}

use std::collections::HashMap;
use origami_store::kernel::{CreaseKernel, Point};
use origami_store::model::{
    CreaseLine, CreasePattern, DisplaySettings, Document, Edge, EdgeId, EdgeKind, Face, FoldStep,
    Paper, Rgb, TechniqueKind, Vertex, VertexId, MAX_GRID_DIVISIONS, MIN_GRID_DIVISIONS,
};
use origami_store::edits::EditOp;
use origami_store::store::{DocumentStore, DocumentView, SeqOp, MAX_UNDO};
use origami_store::folding::{FoldKernel, KernelFold, SpatialFold};
use origami_store::fold_target::{FoldTargetStatus, PleatAnalysis, PleatSection, SpatialCreaseOnlyError};
use origami_store::poses::PoseDriver;
use origami_store::replay::{
    add_penetration_warning, flat_fold_notice,
    add_layer_order_warning_only, add_penetration_warning_for_intersections, attach_replay,
    flat_fold_notice_violations, replay_flat_fold_notice_violations, Frame, FrameFace, Replay, ReplayKernel,
};
use origami_store::crease_only::{material_fold_target_info_at, CreaseOnlyKernel, CreasedTop, NonflatPose, TopObservation};
use origami_store::replay_check::{ColdReplay, Drift, Point3, SpatialFace};
use origami_store::surface::MaterialVertex;

/// A kernel for a rectangular sheet: lines are added and removed without splitting, and every
/// fold line adds one face.
struct SquareKernel;

fn bits(x: f64) -> u64 {
    x.to_bits()
}

impl CreaseKernel for SquareKernel {
    fn new_document(&self, paper: Paper) -> Document {
        let w = f64::from_bits(paper.width_bits);
        let h = f64::from_bits(paper.height_bits);
        let long = w.max(h);
        let (w, h) = (w / long, h / long);
        let corners = [(0.0, 0.0), (w, 0.0), (w, h), (0.0, h)];
        let vertices = corners
            .iter()
            .enumerate()
            .map(|(i, (x, y))| Vertex { id: i as u32, x_bits: bits(*x), y_bits: bits(*y) })
            .collect();
        let edges = (0..4u32)
            .map(|i| Edge { id: i, v0: i, v1: (i + 1) % 4, kind: EdgeKind::Border })
            .collect();
        Document {
            paper,
            cp: CreasePattern { vertices, edges, next_vertex_id: 4, next_edge_id: 4 },
            display: DisplaySettings {
                front_color: Rgb { r: 237, g: 28, b: 36 },
                back_color: Rgb { r: 255, g: 255, b: 255 },
                grid_divisions: 8,
                soft_enabled: false,
                soft_stiffness_bits: bits(0.5),
                soft_pressure_bits: bits(0.0),
                overlap_prevention_enabled: false,
                penetration_prevention_enabled: true,
            },
            sequence: Vec::new(),
        }
    }

    fn extract_faces(&self, cp: &CreasePattern) -> Vec<Face> {
        if cp.vertices.is_empty() {
            return Vec::new();
        }
        let folds = cp
            .edges
            .iter()
            .filter(|e| matches!(e.kind, EdgeKind::Mountain | EdgeKind::Valley))
            .count();
        (0..=folds as u32).map(|id| Face { id, vertices: Vec::new(), edges: Vec::new() }).collect()
    }

    fn validate(&self, _cp: &CreasePattern) -> Vec<String> {
        Vec::new()
    }

    fn local_violations(&self, _cp: &CreasePattern) -> Vec<VertexId> {
        Vec::new()
    }

    fn insert_segment(&self, cp: &mut CreasePattern, a: Point, b: Point, kind: EdgeKind) {
        let mut find = |p: Point, cp: &mut CreasePattern| -> u32 {
            if let Some(v) = cp.vertices.iter().find(|v| v.x_bits == p.x_bits && v.y_bits == p.y_bits) {
                return v.id;
            }
            let id = cp.next_vertex_id;
            cp.vertices.push(Vertex { id, x_bits: p.x_bits, y_bits: p.y_bits });
            cp.next_vertex_id += 1;
            id
        };
        let v0 = find(a, cp);
        let v1 = find(b, cp);
        if let Some(e) = cp
            .edges
            .iter_mut()
            .find(|e| (e.v0 == v0 && e.v1 == v1) || (e.v0 == v1 && e.v1 == v0))
        {
            e.kind = kind;
            return;
        }
        let id = cp.next_edge_id;
        cp.edges.push(Edge { id, v0, v1, kind });
        cp.next_edge_id += 1;
    }

    fn remove_edges(&self, cp: &mut CreasePattern, ids: &Vec<EdgeId>) {
        cp.edges.retain(|e| !ids.contains(&e.id));
    }

    fn move_vertex(&self, cp: &mut CreasePattern, id: VertexId, to: Point) {
        for v in cp.vertices.iter_mut() {
            if v.id == id {
                v.x_bits = to.x_bits;
                v.y_bits = to.y_bits;
            }
        }
    }
}

/// The replay of the square kernel: the faces stacked in order, nothing intersecting.
impl ReplayKernel for SquareKernel {
    type Geometry = ();
    type Details = ();

    fn replay(&self, _doc: &Document, faces: &Vec<Face>, _up_to: usize) -> Replay<(), ()> {
        Replay {
            frame: Frame {
                faces: faces
                    .iter()
                    .enumerate()
                    .map(|(i, f)| FrameFace { face: f.id, layer: i as u32, surface_rank: i as u32 })
                    .collect(),
                warnings: Vec::new(),
                geometry: (),
            },
            targets: Vec::new(),
            angles: HashMap::new(),
            warnings: Vec::new(),
            skipped: Vec::new(),
            best_effort: false,
            converged: true,
            order_derived: true,
            details: (),
        }
    }
    fn has_saved_layer_order(&self, _doc: &Document, _faces: &Vec<Face>, _up_to: usize) -> bool {
        true
    }
    fn layer_order_conflicts(&self, _cp: &CreasePattern, _faces: &Vec<Face>, _frame: &Frame<()>) -> bool {
        false
    }
    fn derive_layer_order(&self, _cp: &CreasePattern, _faces: &Vec<Face>, _frame: &Frame<()>) -> Option<Vec<u32>> {
        None
    }
    fn stamp_surface_order(&self, _faces: &mut Vec<FrameFace>, _geometry: &mut (), _order: &Vec<u32>) {}
    fn self_intersection_pairs(&self, _frame: &Frame<()>) -> Vec<(u32, u32)> {
        Vec::new()
    }
    fn prevent_overlap_with_order(&self, _cp: &CreasePattern, _faces: &Vec<Face>, _replay: &mut Replay<(), ()>, _order: &Vec<u32>, _enabled: bool) {}
    fn suspect_hinges(&self, _cp: &CreasePattern, _faces: &Vec<Face>, _intersections: &Vec<(u32, u32)>, _details: &()) -> Vec<EdgeId> {
        Vec::new()
    }
    fn angle_reached(&self, actual: u64, target: u64) -> bool {
        actual == target
    }
}

fn paper(w: f64, h: f64) -> Paper {
    Paper { width_bits: bits(w), height_bits: bits(h) }
}

fn pt(x: f64, y: f64) -> Point {
    Point { x_bits: bits(x), y_bits: bits(y) }
}

fn square_store() -> DocumentStore {
    let mut store = DocumentStore::with_document(&SquareKernel, SquareKernel.new_document(paper(210.0, 297.0)));
    store.new_document(&SquareKernel, paper(150.0, 150.0)).unwrap();
    store
}

fn diagonal() -> EditOp {
    EditOp::AddSegment { a: pt(0.0, 0.0), b: pt(1.0, 1.0), kind: EdgeKind::Mountain }
}

fn diagonal_reverse() -> EditOp {
    EditOp::AddSegment { a: pt(1.0, 0.0), b: pt(0.0, 1.0), kind: EdgeKind::Valley }
}

fn step(id: u32) -> FoldStep {
    FoldStep { id, kind: TechniqueKind::Simple, drivers: Vec::new(), note: String::new(), extra: String::new() }
}

const PENETRATION: &str = "paper penetrates itself";
const FOLD_PENETRATION: &str = "the fold runs into the paper";
const PEN: &str = PENETRATION;
const FOLD_PEN: &str = FOLD_PENETRATION;

/// Folds along the segment from `a` to `b` as a step inserted after the first `up_to`
/// steps, the crease pattern after the fold being computed by the test kernel.
fn fold(store: &mut DocumentStore, up_to: usize, a: (f64, f64), b: (f64, f64)) -> Result<DocumentView, String> {
    let mut cp = store.document().cp.clone();
    SquareKernel.insert_segment(&mut cp, pt(a.0, a.1), pt(b.0, b.1), EdgeKind::Valley);
    let ends = |v: u32| {
        let p = cp.vertices.iter().find(|x| x.id == v).unwrap();
        (f64::from_bits(p.x_bits), f64::from_bits(p.y_bits))
    };
    let added: Vec<EdgeId> = cp
        .edges
        .iter()
        .filter(|e| {
            let (p, q) = (ends(e.v0), ends(e.v1));
            (p == a && q == b) || (p == b && q == a)
        })
        .map(|e| e.id)
        .collect();
    store.record_fold(
        &SquareKernel,
        up_to,
        None,
        step(0),
        cp,
        &added,
        Vec::new(),
        Vec::new(),
        &PENETRATION.to_string(),
        &FOLD_PENETRATION.to_string(),
    )
}

fn kind_of(view: &DocumentView, id: u32) -> EdgeKind {
    view.doc.cp.edges.iter().find(|e| e.id == id).unwrap().kind
}

#[test]
fn add_segment_undo_redo_roundtrip() {
    let mut store = square_store();
    let initial = store.document().clone();

    let view = store.apply_edit(&SquareKernel, diagonal()).unwrap();
    assert_eq!(view.doc.cp.edges.len(), 5);
    assert_eq!(view.faces.len(), 2);
    assert!(view.warnings.is_empty());
    let edited = store.document().clone();
    assert_ne!(initial, edited);

    let view = store.undo(&SquareKernel).unwrap();
    assert_eq!(view.doc, initial);
    assert_eq!(store.document(), &initial);

    let view = store.redo(&SquareKernel).unwrap();
    assert_eq!(view.doc, edited);
    assert_eq!(store.document(), &edited);
}

#[test]
fn apply_edits_records_one_history_entry_for_one_gesture() {
    let mut store = square_store();
    let before = store.document().clone();
    let lines: Vec<EditOp> = (0..598)
        .map(|i| {
            let y = 0.001 + 0.001 * f64::from(i);
            EditOp::AddSegment { a: pt(0.0, y), b: pt(1.0, y), kind: EdgeKind::Valley }
        })
        .collect();

    let view = store.apply_edits(&SquareKernel, lines).unwrap();
    assert!(view.doc.cp.edges.len() > 598);
    assert_eq!(store.undo_history().len(), 1, "one history entry");

    let after = store.document().clone();
    let view = store.undo(&SquareKernel).unwrap();
    assert_eq!(view.doc, before);
    assert!(store.undo(&SquareKernel).is_err());

    let view = store.redo(&SquareKernel).unwrap();
    assert_eq!(view.doc, after);
}

#[test]
fn apply_edits_rejected_partway_changes_nothing() {
    let mut store = square_store();
    let before = store.document().clone();
    let err = store
        .apply_edits(&SquareKernel, vec![diagonal(), EditOp::SetPaper { paper: paper(100.0, 100.0) }])
        .unwrap_err();
    assert!(err.contains("紙サイズ"), "err={err}");
    assert_eq!(store.document(), &before);
    assert!(store.undo_history().is_empty());
}

fn proposal_cp() -> CreasePattern {
    let mut store = square_store();
    store.apply_edit(&SquareKernel, diagonal()).unwrap();
    store.document().cp.clone()
}

fn cp_without_faces() -> CreasePattern {
    CreasePattern { vertices: Vec::new(), edges: Vec::new(), next_vertex_id: 0, next_edge_id: 0 }
}

#[test]
fn apply_proposal_puts_the_crease_pattern_and_the_fold_order_in_together() {
    let mut store = square_store();
    let before = store.document().clone();
    let cp = proposal_cp();
    let steps = vec![step(0), step(1), step(2)];

    let view = store.apply_proposal(&SquareKernel, cp.clone(), steps.clone()).unwrap();

    assert_eq!(view.doc.cp, cp);
    assert_eq!(view.doc.sequence, steps);
    assert_eq!(view.doc.sequence.len(), 3);
    assert_eq!(store.document().cp, cp);
    assert_eq!(store.document().sequence, steps);
    assert_eq!(store.undo_history().len(), 1);
    assert_ne!(store.document(), &before);
}

#[test]
fn apply_proposal_rejected_changes_nothing() {
    let mut store = square_store();
    store.apply_seq(&SquareKernel, SeqOp::PushStep { step: step(7) }, &PEN.to_string(), &FOLD_PEN.to_string()).unwrap();
    let before = store.document().clone();
    let history = store.undo_history().len();

    let err = store.apply_proposal(&SquareKernel, proposal_cp(), vec![step(0), step(0)]).unwrap_err();
    assert!(err.contains("二重"), "err={err}");
    assert_eq!(store.document(), &before);
    assert_eq!(store.undo_history().len(), history);

    let err = store.apply_proposal(&SquareKernel, cp_without_faces(), vec![step(0)]).unwrap_err();
    assert!(err.contains("面"), "err={err}");
    assert_eq!(store.document(), &before);
    assert_eq!(store.undo_history().len(), history);
}

#[test]
fn one_undo_puts_back_both_the_crease_pattern_and_the_fold_order() {
    let mut store = square_store();
    store.apply_seq(&SquareKernel, SeqOp::PushStep { step: step(7) }, &PEN.to_string(), &FOLD_PEN.to_string()).unwrap();
    let before = store.document().clone();

    store.apply_proposal(&SquareKernel, proposal_cp(), vec![step(0), step(1)]).unwrap();
    assert_eq!(store.document().sequence.len(), 2);
    assert_ne!(store.document().cp, before.cp);

    let view = store.undo(&SquareKernel).unwrap();
    assert_eq!(view.doc.cp, before.cp);
    assert_eq!(view.doc.sequence, before.sequence);
    assert_eq!(store.document(), &before);
}

#[test]
fn apply_edits_rejects_empty_request() {
    let mut store = square_store();
    assert!(store.apply_edits(&SquareKernel, Vec::new()).is_err());
    assert!(store.undo_history().is_empty());
}

#[test]
fn undo_stack_capped_at_100_oldest_dropped() {
    let mut store = square_store();
    let mut states = vec![store.document().clone()];
    for i in 1..=101u32 {
        store
            .apply_edit(
                &SquareKernel,
                EditOp::MoveVertex { id: 0, to: pt(-0.001 * f64::from(i), -0.001 * f64::from(i)) },
            )
            .unwrap();
        states.push(store.document().clone());
    }
    assert_eq!(store.undo_history().len(), MAX_UNDO);
    for _ in 0..MAX_UNDO {
        store.undo(&SquareKernel).unwrap();
    }
    assert_eq!(store.document(), &states[1]);
    assert!(store.undo(&SquareKernel).is_err());
}

#[test]
fn duplicate_add_segment_does_not_push_undo() {
    let mut store = square_store();
    store.apply_edit(&SquareKernel, diagonal()).unwrap();
    assert_eq!(store.undo_history().len(), 1);
    let view = store.apply_edit(&SquareKernel, diagonal()).unwrap();
    assert_eq!(view.doc.cp.edges.len(), 5);
    assert_eq!(store.undo_history().len(), 1);
}

#[test]
fn new_edit_clears_redo_stack() {
    let mut store = square_store();
    store.apply_edit(&SquareKernel, diagonal()).unwrap();
    store.undo(&SquareKernel).unwrap();
    assert_eq!(store.redo_history().len(), 1);
    store.apply_edit(&SquareKernel, diagonal_reverse()).unwrap();
    assert!(store.redo_history().is_empty());
    assert!(store.redo(&SquareKernel).is_err());
}

#[test]
fn remove_edges_keeps_border_with_warning() {
    let mut store = square_store();
    let view = store.apply_edit(&SquareKernel, diagonal()).unwrap();
    let mountain_id = view.doc.cp.edges.iter().find(|e| e.kind == EdgeKind::Mountain).unwrap().id;
    let view = store.apply_edit(&SquareKernel, EditOp::RemoveEdges { ids: vec![0, mountain_id] }).unwrap();
    assert!(view.warnings.iter().any(|w| w.contains("輪郭線")));
    assert_eq!(view.doc.cp.edges.len(), 4);
    assert!(view.doc.cp.edges.iter().all(|e| e.kind == EdgeKind::Border));
}

#[test]
fn set_edge_kind_protects_border_both_ways() {
    let mut store = square_store();
    let view = store.apply_edit(&SquareKernel, diagonal()).unwrap();
    let mountain_id = view.doc.cp.edges.iter().find(|e| e.kind == EdgeKind::Mountain).unwrap().id;

    let view = store
        .apply_edit(&SquareKernel, EditOp::SetEdgeKind { ids: vec![0, mountain_id], kind: EdgeKind::Valley })
        .unwrap();
    assert!(view.warnings.iter().any(|w| w.contains("輪郭線")));
    assert_eq!(kind_of(&view, 0), EdgeKind::Border);
    assert_eq!(kind_of(&view, mountain_id), EdgeKind::Valley);

    let view = store
        .apply_edit(&SquareKernel, EditOp::SetEdgeKind { ids: vec![mountain_id], kind: EdgeKind::Border })
        .unwrap();
    assert!(view.warnings.iter().any(|w| w.contains("輪郭線")));
    assert_eq!(kind_of(&view, mountain_id), EdgeKind::Valley);
}

#[test]
fn set_paper_rejected_when_fold_lines_exist() {
    let mut store = square_store();
    store.apply_edit(&SquareKernel, diagonal()).unwrap();
    let err = store.apply_edit(&SquareKernel, EditOp::SetPaper { paper: paper(150.0, 100.0) }).unwrap_err();
    assert!(err.contains("紙サイズを変更できません"), "err={err}");
    assert_eq!(store.undo_history().len(), 1);
}

#[test]
fn set_paper_rebuilds_when_border_only() {
    let mut store = square_store();
    store.apply_seq(&SquareKernel, SeqOp::PushStep { step: step(7) }, &PEN.to_string(), &FOLD_PEN.to_string()).unwrap();
    let view = store.apply_edit(&SquareKernel, EditOp::SetPaper { paper: paper(150.0, 100.0) }).unwrap();
    assert_eq!(f64::from_bits(view.doc.paper.height_bits), 100.0);
    let ymax = view.doc.cp.vertices.iter().map(|v| f64::from_bits(v.y_bits)).fold(0.0, f64::max);
    assert!((ymax - 100.0 / 150.0).abs() < 1e-12);
    assert_eq!(view.doc.sequence.len(), 1);
}

#[test]
fn set_display_saves_into_document_and_is_undoable() {
    let mut store = square_store();
    let before = store.document().display;
    let view = store
        .apply_edit(
            &SquareKernel,
            EditOp::SetDisplay {
                display: DisplaySettings {
                    front_color: Rgb { r: 0, g: 128, b: 255 },
                    back_color: Rgb { r: 16, g: 16, b: 16 },
                    grid_divisions: 1024,
                    ..before
                },
            },
        )
        .unwrap();
    assert_eq!(view.doc.display.front_color, Rgb { r: 0, g: 128, b: 255 });
    assert_eq!(view.doc.display.back_color, Rgb { r: 16, g: 16, b: 16 });
    assert_eq!(view.doc.display.grid_divisions, 1024);
    assert!(view.warnings.is_empty(), "warnings={:?}", view.warnings);
    assert!(store.is_dirty());

    let view = store
        .apply_edit(
            &SquareKernel,
            EditOp::SetDisplay {
                display: DisplaySettings { grid_divisions: MAX_GRID_DIVISIONS + 1, ..view.doc.display },
            },
        )
        .unwrap();
    assert_eq!(view.doc.display.grid_divisions, MAX_GRID_DIVISIONS);
    assert!(view.warnings.iter().any(|w| w.contains("方眼の数")), "warnings={:?}", view.warnings);
    let view = store
        .apply_edit(&SquareKernel, EditOp::SetDisplay { display: DisplaySettings { grid_divisions: 0, ..view.doc.display } })
        .unwrap();
    assert_eq!(view.doc.display.grid_divisions, MIN_GRID_DIVISIONS);

    for _ in 0..2 {
        store.undo(&SquareKernel).unwrap();
    }
    assert_eq!(store.document().display, before);
    assert_eq!(store.redo(&SquareKernel).unwrap().doc.display.front_color, Rgb { r: 0, g: 128, b: 255 });
}

#[test]
fn seq_ops_apply_and_undo() {
    let mut store = square_store();
    store.apply_seq(&SquareKernel, SeqOp::PushStep { step: step(0) }, &PEN.to_string(), &FOLD_PEN.to_string()).unwrap();
    store.apply_seq(&SquareKernel, SeqOp::InsertStep { index: 0, step: step(1) }, &PEN.to_string(), &FOLD_PEN.to_string()).unwrap();
    let mut updated = step(1);
    updated.note = "折り筋をつける".to_string();
    let view = store.apply_seq(&SquareKernel, SeqOp::UpdateStep { step: updated }, &PEN.to_string(), &FOLD_PEN.to_string()).unwrap();
    assert_eq!(view.view.doc.sequence[0].note, "折り筋をつける");

    let view = store.apply_seq(&SquareKernel, SeqOp::RemoveStep { id: 0 }, &PEN.to_string(), &FOLD_PEN.to_string()).unwrap();
    assert_eq!(view.view.doc.sequence.len(), 1);

    assert!(store.apply_seq(&SquareKernel, SeqOp::RemoveStep { id: 99 }, &PEN.to_string(), &FOLD_PEN.to_string()).is_err());
    assert!(store.apply_seq(&SquareKernel, SeqOp::InsertStep { index: 5, step: step(2) }, &PEN.to_string(), &FOLD_PEN.to_string()).is_err());

    store.undo(&SquareKernel).unwrap();
    store.undo(&SquareKernel).unwrap();
    store.undo(&SquareKernel).unwrap();
    let view = store.undo(&SquareKernel).unwrap();
    assert!(view.doc.sequence.is_empty());
}

#[test]
fn move_vertex_missing_id_warns_without_change() {
    let mut store = square_store();
    let view = store.apply_edit(&SquareKernel, EditOp::MoveVertex { id: 999, to: pt(0.5, 0.5) }).unwrap();
    assert!(view.warnings.iter().any(|w| w.contains("頂点ID 999")), "warnings={:?}", view.warnings);
    assert!(store.undo_history().is_empty());
}

#[test]
fn pose_angles_roundtrip_and_cleared_on_new() {
    let mut store = square_store();
    assert_eq!(store.pose_inputs().2, None);

    let warm = HashMap::from([(6u32, bits(90.0))]);
    store.store_pose_angles(warm.clone());
    let (doc, faces, got, overlap_enabled, penetration_enabled) = store.pose_inputs();
    assert_eq!(&doc, store.document());
    assert_eq!(faces.len(), 1);
    assert_eq!(got, Some(warm));
    assert!(!overlap_enabled);
    assert!(penetration_enabled);

    store.new_document(&SquareKernel, paper(100.0, 100.0)).unwrap();
    assert_eq!(store.pose_inputs().2, None);
}

#[test]
fn replacing_crease_pattern_clears_steps_and_warm_start() {
    let mut store = square_store();
    store.apply_edit(&SquareKernel, diagonal()).unwrap();
    store.apply_seq(&SquareKernel, SeqOp::PushStep { step: step(7) }, &PEN.to_string(), &FOLD_PEN.to_string()).unwrap();
    store.store_pose_angles(HashMap::from([(4u32, bits(120.0))]));

    let replacement = SquareKernel.new_document(paper(100.0, 100.0)).cp;
    let view = store.apply_edit(&SquareKernel, EditOp::ReplaceCreasePattern { cp: replacement }).unwrap();
    assert!(view.doc.sequence.is_empty());
    assert!(store.document().sequence.is_empty());
    assert_eq!(store.pose_inputs().2, None);
}

#[test]
fn pose_inputs_faces_cache_follows_all_doc_changes() {
    let mut store = square_store();
    let fresh = |s: &DocumentStore| SquareKernel.extract_faces(&s.document().cp);

    store.apply_edit(&SquareKernel, diagonal()).unwrap();
    assert_eq!(store.pose_inputs().1, fresh(&store));
    store.undo(&SquareKernel).unwrap();
    assert_eq!(store.pose_inputs().1, fresh(&store));
    store.redo(&SquareKernel).unwrap();
    assert_eq!(store.pose_inputs().1, fresh(&store));
    store.new_document(&SquareKernel, paper(100.0, 100.0)).unwrap();
    assert_eq!(store.pose_inputs().1, fresh(&store));
}

#[test]
fn fold_records_the_crease_it_adds_to_the_cp() {
    let mut store = square_store();
    let view = fold(&mut store, 0, (0.5, 0.0), (0.5, 1.0)).unwrap();
    let step_id = view.doc.sequence[0].id;
    let creases = view.step_creases.iter().find(|c| c.step == step_id).expect("the fold's lines are recorded");
    assert_eq!(creases.lines.len(), 1);
    let line = creases.lines[0];
    assert_eq!(f64::from_bits(line.x0_bits), 0.5);
    assert_eq!(f64::from_bits(line.x1_bits), 0.5);
    assert_eq!((f64::from_bits(line.y0_bits) - f64::from_bits(line.y1_bits)).abs(), 1.0);
}

#[test]
fn folding_along_a_predrawn_crease_records_no_added_line() {
    let mut store = square_store();
    store
        .apply_edit(&SquareKernel, EditOp::AddSegment { a: pt(0.5, 0.0), b: pt(0.5, 1.0), kind: EdgeKind::Valley })
        .unwrap();
    let drawn: Vec<EdgeId> =
        store.document().cp.edges.iter().filter(|e| e.kind == EdgeKind::Valley).map(|e| e.id).collect();
    assert_eq!(drawn.len(), 1);

    let view = fold(&mut store, 0, (0.5, 0.0), (0.5, 1.0)).unwrap();
    let step_id = view.doc.sequence[0].id;
    let creases = view.step_creases.iter().find(|c| c.step == step_id).expect("the record is always kept");
    assert!(creases.lines.is_empty(), "{:?}", creases.lines);
    assert!(view.doc.cp.edges.iter().any(|e| e.id == drawn[0]));
}

#[test]
fn undo_and_redo_move_the_crease_history_with_the_document() {
    let mut store = square_store();
    fold(&mut store, 0, (0.5, 0.0), (0.5, 1.0)).unwrap();
    assert_eq!(store.crease_history().len(), 1);

    let view = store.undo(&SquareKernel).unwrap();
    assert!(view.step_creases.is_empty());
    assert!(store.crease_history().is_empty());

    let view = store.redo(&SquareKernel).unwrap();
    assert_eq!(view.step_creases.len(), 1);
}

#[test]
fn reordering_steps_keeps_the_crease_history() {
    let mut store = square_store();
    fold(&mut store, 0, (0.5, 0.0), (0.5, 1.0)).unwrap();
    fold(&mut store, 1, (0.0, 0.5), (1.0, 0.5)).unwrap();
    let before = store.crease_history().clone();
    assert_eq!(before.len(), 2);

    let moved = store.document().sequence[1].clone();
    store.apply_seq(&SquareKernel, SeqOp::RemoveStep { id: moved.id }, &PEN.to_string(), &FOLD_PEN.to_string()).unwrap();
    let view = store.apply_seq(&SquareKernel, SeqOp::InsertStep { index: 0, step: moved }, &PEN.to_string(), &FOLD_PEN.to_string()).unwrap();

    assert_eq!(view.view.doc.sequence.len(), 2);
    let mut after = view.view.step_creases.clone();
    after.sort_by_key(|c| c.step);
    assert_eq!(after, before);
}

#[test]
fn removed_steps_do_not_leave_history_in_the_saved_file() {
    let mut store = square_store();
    fold(&mut store, 0, (0.5, 0.0), (0.5, 1.0)).unwrap();
    let removed = store.document().sequence[0].id;
    store.apply_seq(&SquareKernel, SeqOp::RemoveStep { id: removed }, &PEN.to_string(), &FOLD_PEN.to_string()).unwrap();

    let view = fold(&mut store, 0, (0.0, 0.5), (1.0, 0.5)).unwrap();
    assert_ne!(view.doc.sequence[0].id, removed);
    assert_eq!(view.step_creases.len(), 1);
    assert_eq!(view.step_creases[0].step, view.doc.sequence[0].id);
    let saved = store.saved_document();
    assert_eq!(saved.step_creases.len(), 1);
}

#[test]
fn fold_through_inserts_in_the_middle_and_keeps_later_steps() {
    let mut store = square_store();
    fold(&mut store, 0, (0.5, 0.0), (0.5, 1.0)).unwrap();
    let first_id = store.document().sequence[0].id;

    let view = fold(&mut store, 0, (0.0, 0.5), (1.0, 0.5)).unwrap();
    assert_eq!(view.doc.sequence.len(), 2);
    assert_eq!(view.doc.sequence[1].id, first_id);
    assert!(view.warnings.iter().any(|w| w.contains("前に折りを挟みました")), "{:?}", view.warnings);

    let view = store.undo(&SquareKernel).unwrap();
    assert_eq!(view.doc.sequence.len(), 1);
    assert_eq!(view.doc.sequence[0].id, first_id);
}

#[test]
fn fold_through_rejects_out_of_range_insert_point() {
    let mut store = square_store();
    let before = store.document().clone();
    let err = fold(&mut store, 3, (0.0, 0.5), (1.0, 0.5)).unwrap_err();
    assert!(err.contains("手順の数を超えています"), "err={err}");
    assert_eq!(store.document(), &before);
}

#[test]
fn default_store_holds_a_new_square_work() {
    let store = DocumentStore::with_default_document(&SquareKernel);
    assert_eq!(store.document().cp.edges.len(), 4);
    assert!(store.undo_history().is_empty());
    assert!(!store.is_dirty());
    assert_eq!(store.current_path(), None);
}

#[test]
fn preview_changes_nothing() {
    let mut store = square_store();
    fold(&mut store, 0, (0.5, 0.0), (0.5, 1.0)).unwrap();
    let before = format!("{:?}", (store.document(), store.undo_history(), store.is_dirty()));
    let view = store.preview_fold(&SquareKernel, 1, None, vec!["note".to_string()]).unwrap();
    assert_eq!(&view.doc, store.document());
    assert_eq!(view.warnings[0], "note");
    assert_eq!(view.fold_target_info, None);
    assert_eq!(
        store.preview_fold(&SquareKernel, 2, None, vec![]).unwrap_err(),
        "挿入位置 2 が手順の数を超えています"
    );
    assert_eq!(format!("{:?}", (store.document(), store.undo_history(), store.is_dirty())), before);
}

#[test]
fn fold_after_a_pose_inserts_both_steps_with_fresh_ids() {
    let mut store = square_store();
    fold(&mut store, 0, (0.5, 0.0), (0.5, 1.0)).unwrap();
    let first = store.document().sequence[0].id;
    let mut pose = step(99);
    pose.kind = TechniqueKind::Pose;
    let mut cp = store.document().cp.clone();
    SquareKernel.insert_segment(&mut cp, pt(0.0, 0.5), pt(1.0, 0.5), EdgeKind::Mountain);
    let added = vec![cp.edges.last().unwrap().id];
    let (doc, creases, notices) =
        store.fold_candidate(0, Some(pose), step(5), cp, &added).unwrap();
    assert_eq!(doc.sequence.len(), 3);
    assert_eq!(doc.sequence[0].kind, TechniqueKind::Pose);
    assert_eq!(doc.sequence[0].id, first + 1, "fresh among steps and records");
    assert_eq!(doc.sequence[1].id, first + 2, "the fold step comes after the pose step");
    assert_eq!(doc.sequence[2].id, first);
    assert_eq!(notices.len(), 1);
    let pose_record = creases.iter().find(|c| c.step == first + 1).unwrap();
    assert!(pose_record.lines.is_empty(), "a pose step adds no line");
    assert_eq!(creases.iter().find(|c| c.step == first + 2).unwrap().lines.len(), 1);
    assert_eq!(store.document().sequence.len(), 1, "a candidate changes nothing");
}

#[test]
fn fold_penetration_warning_follows_the_detection_setting_in_a_fold() {
    for detect in [true, false] {
        let mut store = square_store();
        let display = DisplaySettings { penetration_prevention_enabled: detect, ..store.document().display };
        store.apply_edit(&SquareKernel, EditOp::SetDisplay { display }).unwrap();
        let mut cp = store.document().cp.clone();
        SquareKernel.insert_segment(&mut cp, pt(0.5, 0.0), pt(0.5, 1.0), EdgeKind::Valley);
        let view = store
            .record_fold(
                &SquareKernel,
                0,
                None,
                step(0),
                cp,
                &vec![],
                vec![PENETRATION.to_string(), "state".to_string()],
                vec![FOLD_PENETRATION.to_string(), "result".to_string()],
                &PENETRATION.to_string(),
                &FOLD_PENETRATION.to_string(),
            )
            .unwrap();
        if detect {
            assert_eq!(view.warnings, vec![PENETRATION, "state", FOLD_PENETRATION, "result"]);
        } else {
            assert_eq!(view.warnings, vec!["state", "result"]);
        }
    }
}

/// A folding kernel over the square sheet: a fold draws its line as a valley, the flat state
/// and the 3D shape are switched by the two flags, and the pleat analysis offers two pleats.
struct FoldingKernel {
    flat: bool,
    nonflat: bool,
}

type Line = ((f64, f64), (f64, f64));

impl FoldingKernel {
    fn folded(&self, cp: &CreasePattern, line: &Line, kind: TechniqueKind, layers: &Option<Vec<u32>>) -> (FoldStep, CreasePattern, Vec<EdgeId>) {
        let mut out = cp.clone();
        let before = out.next_edge_id;
        SquareKernel.insert_segment(&mut out, pt(line.0 .0, line.0 .1), pt(line.1 .0, line.1 .1), EdgeKind::Valley);
        let added = out.edges.iter().filter(|e| e.id >= before).map(|e| e.id).collect();
        let mut s = step(0);
        s.kind = kind;
        s.note = format!("{:?}", layers);
        (s, out, added)
    }
}

impl CreaseKernel for FoldingKernel {
    fn new_document(&self, paper: Paper) -> Document {
        SquareKernel.new_document(paper)
    }
    fn extract_faces(&self, cp: &CreasePattern) -> Vec<Face> {
        SquareKernel.extract_faces(cp)
    }
    fn validate(&self, cp: &CreasePattern) -> Vec<String> {
        SquareKernel.validate(cp)
    }
    fn local_violations(&self, cp: &CreasePattern) -> Vec<VertexId> {
        SquareKernel.local_violations(cp)
    }
    fn insert_segment(&self, cp: &mut CreasePattern, a: Point, b: Point, kind: EdgeKind) {
        SquareKernel.insert_segment(cp, a, b, kind)
    }
    fn remove_edges(&self, cp: &mut CreasePattern, ids: &Vec<EdgeId>) {
        SquareKernel.remove_edges(cp, ids)
    }
    fn move_vertex(&self, cp: &mut CreasePattern, id: VertexId, to: Point) {
        SquareKernel.move_vertex(cp, id, to)
    }
}

impl FoldKernel for FoldingKernel {
    type State = usize;
    type Frame = bool;
    type Line = Line;
    type Pose = FoldStep;
    type Grip = ();
    type Analysis = usize;
    type Proposal = String;
    type TechniqueInput = Line;
    type MotionInput = Line;

    fn flat_state_at(&self, _doc: &Document, _faces: &Vec<Face>, up_to: usize) -> Result<(usize, Vec<String>), String> {
        if self.flat {
            Ok((up_to, vec!["state".to_string()]))
        } else {
            Err("no flat state".to_string())
        }
    }

    fn canonical_flat_pose_at(&self, _doc: &Document, _faces: &Vec<Face>, up_to: usize, pose: &FoldStep) -> Result<(usize, FoldStep, Vec<String>), String> {
        Ok((up_to, pose.clone(), vec!["pose".to_string()]))
    }

    fn fold_through(&self, cp: &CreasePattern, _faces: &Vec<Face>, _state: &usize, line: &Line, target_layers: &Option<Vec<u32>>, _accept: bool) -> Result<KernelFold, String> {
        let (step, cp, added_edges) = self.folded(cp, line, TechniqueKind::Simple, target_layers);
        Ok(KernelFold { step, cp, added_edges, warnings: vec!["folded".to_string()] })
    }

    fn propose_fold_through(&self, _cp: &CreasePattern, _faces: &Vec<Face>, state: &usize, _line: &Line, _layers: &Option<Vec<u32>>) -> Result<Option<String>, String> {
        Ok(Some(format!("proposal after {state}")))
    }

    fn replay_frame(&self, _doc: &Document, _faces: &Vec<Face>, _up_to: usize) -> bool {
        self.nonflat
    }

    fn frame_is_nonflat(&self, frame: &bool) -> bool {
        *frame
    }

    fn fold_from_plane_3d(&self, doc: &Document, _faces: &Vec<Face>, _up_to: usize, _frame: &bool, _grip: &Option<()>, line: &Line, target_layers: &Option<Vec<u32>>) -> SpatialFold {
        if matches!(target_layers, Some(l) if l.is_empty()) {
            return SpatialFold { step: None, cp: doc.cp.clone(), added_edges: Vec::new(), warnings: vec!["nothing to fold".to_string()] };
        }
        let (step, cp, added_edges) = self.folded(&doc.cp, line, TechniqueKind::Simple, target_layers);
        SpatialFold { step: Some(step), cp, added_edges, warnings: vec!["3d".to_string()] }
    }

    fn fold_target_analysis(&self, _doc: &Document, _faces: &Vec<Face>, _up_to: usize, _line: &Line, _pose: &Option<FoldStep>) -> Option<(usize, PleatAnalysis, Vec<String>)> {
        let section = PleatSection { pairs: 2, count_limit: None, top_action: None };
        Some((2, PleatAnalysis { scalar_count: Some(2), sections: vec![section] }, vec!["analysed".to_string()]))
    }

    fn target_faces_for_count(&self, analysis: &usize, count: usize) -> Option<Vec<u32>> {
        if count >= 1 && count <= *analysis {
            Some(vec![count as u32])
        } else {
            None
        }
    }

    fn technique(&self, kind: TechniqueKind, cp: &CreasePattern, _faces: &Vec<Face>, _state: &usize, input: &Line) -> Result<KernelFold, String> {
        let (step, cp, added_edges) = self.folded(cp, input, kind, &None);
        Ok(KernelFold { step, cp, added_edges, warnings: Vec::new() })
    }

    fn flat_motion(&self, cp: &CreasePattern, _faces: &Vec<Face>, _state: &usize, input: &Line) -> Result<KernelFold, String> {
        let (step, cp, added_edges) = self.folded(cp, input, TechniqueKind::Simple, &None);
        Ok(KernelFold { step, cp, added_edges, warnings: vec!["moved".to_string()] })
    }
}

const FLAT: FoldingKernel = FoldingKernel { flat: true, nonflat: false };
const MIDLINE: Line = ((0.5, 0.0), (0.5, 1.0));

fn fold_through(
    store: &mut DocumentStore,
    kernel: &FoldingKernel,
    up_to: usize,
    layers: Option<Vec<u32>>,
    count: Option<usize>,
    pose: Option<FoldStep>,
    grip: Option<()>,
) -> Result<DocumentView, String> {
    store.apply_fold_through(
        kernel,
        up_to,
        &MIDLINE,
        layers,
        count,
        false,
        pose,
        grip,
        &PENETRATION.to_string(),
        &FOLD_PENETRATION.to_string(),
    )
}

fn snapshot(store: &DocumentStore) -> String {
    format!("{:?}", (store.document(), store.crease_history(), store.undo_history(), store.redo_history(), store.is_dirty()))
}

#[test]
fn fold_through_on_the_flat_state_records_the_kernel_fold() {
    let mut store = square_store();
    let view = fold_through(&mut store, &FLAT, 0, None, None, None, None).unwrap();
    assert_eq!(view.doc.sequence.len(), 1);
    assert_eq!(view.doc.cp.edges.len(), 5);
    assert_eq!(view.warnings, vec!["state", "folded"]);
    assert_eq!(store.crease_history().len(), 1);
    assert_eq!(store.undo_history().len(), 1);
    let back = store.undo(&FLAT).unwrap();
    assert!(back.doc.sequence.is_empty());
    assert_eq!(back.doc.cp.edges.len(), 4);
}

#[test]
fn fold_through_refusals_change_nothing() {
    let mut store = square_store();
    let before = snapshot(&store);
    assert_eq!(
        fold_through(&mut store, &FLAT, 1, None, None, None, None).unwrap_err(),
        "挿入位置 1 が手順の数を超えています"
    );
    assert_eq!(
        fold_through(&mut store, &FLAT, 0, Some(vec![1]), Some(1), None, None).unwrap_err(),
        "折るひだの枚数と個別の紙を同時には指定できません"
    );
    assert_eq!(
        fold_through(&mut store, &FLAT, 0, None, Some(1), None, Some(())).unwrap_err(),
        "折るひだの枚数と3D上のつかみ位置を同時には指定できません"
    );
    let err = fold_through(&mut store, &FLAT, 0, None, None, Some(step(7)), Some(())).unwrap_err();
    assert!(!err.is_empty());
    assert_eq!(snapshot(&store), before);
}

#[test]
fn fold_through_a_pleat_count_folds_the_faces_of_that_count() {
    let mut store = square_store();
    let view = fold_through(&mut store, &FLAT, 0, None, Some(2), None, None).unwrap();
    assert_eq!(view.doc.sequence[0].note, "Some([2])");
    let before = snapshot(&store);
    assert!(fold_through(&mut store, &FLAT, 0, None, Some(3), None, None).is_err());
    assert_eq!(snapshot(&store), before);
}

#[test]
fn fold_through_after_a_pose_records_the_pose_step_first() {
    let mut store = square_store();
    let mut pose = step(42);
    pose.kind = TechniqueKind::Pose;
    let view = fold_through(&mut store, &FLAT, 0, None, None, Some(pose), None).unwrap();
    assert_eq!(view.doc.sequence.len(), 2);
    assert_eq!(view.doc.sequence[0].kind, TechniqueKind::Pose);
    assert_eq!(view.doc.sequence[1].kind, TechniqueKind::Simple);
    assert!(view.doc.sequence[0].id < view.doc.sequence[1].id);
    assert_eq!(view.warnings, vec!["pose", "folded"]);
    assert_eq!(store.undo_history().len(), 1, "the pose and the fold are one change");
}

#[test]
fn fold_through_with_a_grip_on_a_raised_shape_folds_in_3d() {
    let mut store = square_store();
    let raised = FoldingKernel { flat: true, nonflat: true };
    let view = fold_through(&mut store, &raised, 0, None, None, None, Some(())).unwrap();
    assert_eq!(view.warnings, vec!["3d"]);
    assert_eq!(view.doc.sequence.len(), 1);
    let view = fold_through(&mut store, &FLAT, 1, None, None, None, Some(())).unwrap();
    assert_eq!(view.warnings, vec!["state", "folded"], "a flat shape is folded flat");
}

#[test]
fn fold_through_without_a_flat_state_falls_back_to_3d_or_fails() {
    let mut store = square_store();
    let before = snapshot(&store);
    let stuck = FoldingKernel { flat: false, nonflat: false };
    assert_eq!(fold_through(&mut store, &stuck, 0, None, None, None, None).unwrap_err(), "no flat state");
    assert_eq!(snapshot(&store), before);
    let raised = FoldingKernel { flat: false, nonflat: true };
    let view = fold_through(&mut store, &raised, 0, None, None, None, None).unwrap();
    assert_eq!(view.warnings, vec!["3d"]);
    assert_eq!(view.doc.sequence.len(), 1);
}

#[test]
fn fold_in_3d_that_finds_no_step_changes_nothing() {
    let mut store = square_store();
    let raised = FoldingKernel { flat: false, nonflat: true };
    let before = format!("{:?}", (store.document(), store.undo_history()));
    let view = fold_through(&mut store, &raised, 0, Some(Vec::new()), None, None, None).unwrap();
    assert_eq!(view.warnings, vec!["nothing to fold"]);
    assert_eq!(format!("{:?}", (store.document(), store.undo_history())), before);
}

#[test]
fn technique_is_checked_then_recorded() {
    let mut store = square_store();
    let before = snapshot(&store);
    let line = ((0.0, 0.5), (1.0, 0.5));
    let p = PENETRATION.to_string();
    let fp = FOLD_PENETRATION.to_string();
    assert_eq!(
        store.apply_technique(&FLAT, 0, TechniqueKind::Rabbit, &line, &p, &fp).unwrap_err(),
        "この折り方はまだ選べません。手動の折り操作で代替してください"
    );
    assert_eq!(
        store.apply_technique(&FLAT, 2, TechniqueKind::Pleat, &line, &p, &fp).unwrap_err(),
        "挿入位置 2 が手順の数を超えています"
    );
    assert_eq!(snapshot(&store), before);
    let view = store.apply_technique(&FLAT, 0, TechniqueKind::Pleat, &line, &p, &fp).unwrap();
    assert_eq!(view.doc.sequence[0].kind, TechniqueKind::Pleat);
    assert_eq!(view.warnings, vec!["state"]);
}

#[test]
fn flat_motion_is_recorded_as_one_change() {
    let mut store = square_store();
    let line = ((0.0, 0.25), (1.0, 0.25));
    let p = PENETRATION.to_string();
    let fp = FOLD_PENETRATION.to_string();
    assert!(store.apply_flat_motion(&FLAT, 1, &line, &p, &fp).is_err());
    let view = store.apply_flat_motion(&FLAT, 0, &line, &p, &fp).unwrap();
    assert_eq!(view.warnings, vec!["state", "moved"]);
    assert_eq!(store.undo_history().len(), 1);
    let stuck = FoldingKernel { flat: false, nonflat: false };
    let before = snapshot(&store);
    assert_eq!(store.apply_flat_motion(&stuck, 1, &line, &p, &fp).unwrap_err(), "no flat state");
    assert_eq!(snapshot(&store), before);
}

#[test]
fn fold_target_preview_gives_the_verdict_and_changes_nothing() {
    let store = square_store();
    let before = snapshot(&store);
    let view = store.preview_fold_targets(&FLAT, 0, &MIDLINE, &None).unwrap();
    let info = view.fold_target_info.unwrap();
    assert_eq!(info.status, FoldTargetStatus::Ready);
    assert_eq!(info.available_count, Some(2));
    assert_eq!(view.warnings, vec!["analysed"]);
    assert!(store.preview_fold_targets(&FLAT, 1, &MIDLINE, &None).is_err());
    assert_eq!(store.fold_target_faces_at(&FLAT, 0, &MIDLINE, &None, 1).unwrap(), vec![1]);
    assert_eq!(snapshot(&store), before);
}

#[test]
fn fold_through_preview_gives_the_proposal_and_changes_nothing() {
    let store = square_store();
    let before = snapshot(&store);
    let p = PENETRATION.to_string();
    let fp = FOLD_PENETRATION.to_string();
    let (view, proposal) = store
        .preview_fold_through(&FLAT, 0, &MIDLINE, None, None, None, None, &p, &fp)
        .unwrap();
    assert_eq!(proposal, Some("proposal after 0".to_string()));
    assert_eq!(view.warnings, vec!["state"]);
    assert_eq!(&view.doc, store.document());
    assert_eq!(
        store.preview_fold_through(&FLAT, 0, &MIDLINE, Some(vec![1]), Some(1), None, None, &p, &fp).unwrap_err(),
        "折るひだの枚数と個別の紙を同時には指定できません"
    );
    assert_eq!(snapshot(&store), before);
}

/// A kernel for the replay and the top-sheet crease over the square sheet, switched by flags.
struct StackKernel {
    conflicts: bool,
    derived: bool,
    intersect: bool,
    saved: bool,
    refuse_crease: bool,
    move_pose: bool,
}

const CALM: StackKernel = StackKernel {
    conflicts: false,
    derived: true,
    intersect: false,
    saved: true,
    refuse_crease: false,
    move_pose: false,
};

impl CreaseKernel for StackKernel {
    fn new_document(&self, paper: Paper) -> Document {
        SquareKernel.new_document(paper)
    }
    fn extract_faces(&self, cp: &CreasePattern) -> Vec<Face> {
        SquareKernel.extract_faces(cp)
    }
    fn validate(&self, cp: &CreasePattern) -> Vec<String> {
        SquareKernel.validate(cp)
    }
    fn local_violations(&self, cp: &CreasePattern) -> Vec<VertexId> {
        if cp.edges.iter().any(|e| matches!(e.kind, EdgeKind::Mountain | EdgeKind::Valley)) {
            vec![7]
        } else {
            Vec::new()
        }
    }
    fn insert_segment(&self, cp: &mut CreasePattern, a: Point, b: Point, kind: EdgeKind) {
        SquareKernel.insert_segment(cp, a, b, kind)
    }
    fn remove_edges(&self, cp: &mut CreasePattern, ids: &Vec<EdgeId>) {
        SquareKernel.remove_edges(cp, ids)
    }
    fn move_vertex(&self, cp: &mut CreasePattern, id: VertexId, to: Point) {
        SquareKernel.move_vertex(cp, id, to)
    }
}

fn angle(deg: f64) -> u64 {
    deg.to_bits()
}

impl ReplayKernel for StackKernel {
    type Geometry = Vec<String>;
    type Details = ();

    fn replay(&self, doc: &Document, faces: &Vec<Face>, _up_to: usize) -> Replay<Vec<String>, ()> {
        let frame_faces = faces
            .iter()
            .enumerate()
            .map(|(i, f)| FrameFace { face: f.id, layer: 0, surface_rank: i as u32 })
            .collect();
        let crease = doc.cp.edges.iter().find(|e| e.kind != EdgeKind::Border).map(|e| e.id).unwrap_or(0);
        Replay {
            frame: Frame { faces: frame_faces, warnings: vec!["frame".to_string()], geometry: Vec::new() },
            targets: vec![PoseDriver { edge_id: crease, target_angle_bits: angle(180.0) }],
            angles: HashMap::from([(crease, angle(179.0))]),
            warnings: vec![PENETRATION.to_string(), "replayed".to_string()],
            skipped: Vec::new(),
            best_effort: false,
            converged: true,
            order_derived: self.derived,
            details: (),
        }
    }
    fn has_saved_layer_order(&self, _doc: &Document, _faces: &Vec<Face>, _up_to: usize) -> bool {
        self.saved
    }
    fn layer_order_conflicts(&self, _cp: &CreasePattern, _faces: &Vec<Face>, _frame: &Frame<Vec<String>>) -> bool {
        self.conflicts
    }
    fn derive_layer_order(&self, _cp: &CreasePattern, _faces: &Vec<Face>, frame: &Frame<Vec<String>>) -> Option<Vec<u32>> {
        Some(frame.faces.iter().rev().map(|f| f.face).collect())
    }
    fn stamp_surface_order(&self, faces: &mut Vec<FrameFace>, geometry: &mut Vec<String>, order: &Vec<u32>) {
        for f in faces.iter_mut() {
            f.surface_rank = order.iter().position(|x| *x == f.face).unwrap() as u32;
        }
        geometry.push("stamped".to_string());
    }
    fn self_intersection_pairs(&self, _frame: &Frame<Vec<String>>) -> Vec<(u32, u32)> {
        if self.intersect {
            vec![(0, 1)]
        } else {
            Vec::new()
        }
    }
    fn prevent_overlap_with_order(&self, _cp: &CreasePattern, _faces: &Vec<Face>, replay: &mut Replay<Vec<String>, ()>, _order: &Vec<u32>, enabled: bool) {
        replay.frame.geometry.push(format!("overlap corrected: {enabled}"));
    }
    fn suspect_hinges(&self, _cp: &CreasePattern, _faces: &Vec<Face>, intersections: &Vec<(u32, u32)>, _details: &()) -> Vec<EdgeId> {
        if intersections.is_empty() {
            Vec::new()
        } else {
            vec![4]
        }
    }
    fn angle_reached(&self, actual: u64, target: u64) -> bool {
        (f64::from_bits(actual) - f64::from_bits(target)).abs() <= 1e-6
    }
}

impl CreaseOnlyKernel for StackKernel {
    type Pose = ();
    type Line = Line;
    type Relation = ();

    fn canonical_nonflat_pose_at(&self, _doc: &Document, _faces: &Vec<Face>, _up_to: usize, _pose: &Option<Vec<PoseDriver>>) -> Result<NonflatPose<()>, String> {
        Ok(NonflatPose { pose: (), angles: Vec::new(), vertices: Vec::new(), warnings: vec!["posed".to_string()] })
    }
    fn faces_containing(&self, _cp: &CreasePattern, faces: &Vec<Face>, point: (u64, u64)) -> Vec<u32> {
        if f64::from_bits(point.0).is_finite() {
            vec![faces[0].id]
        } else {
            Vec::new()
        }
    }
    fn top_relation(&self, _boundary: &Vec<(EdgeId, Option<u64>)>) -> Option<()> {
        Some(())
    }
    fn crease_only_top(&self, cp: &CreasePattern, _faces: &Vec<Face>, _pose: &(), line: &Line, _keep: (u64, u64), top: TopObservation<()>) -> Result<CreasedTop, SpatialCreaseOnlyError> {
        if self.refuse_crease {
            return Err(SpatialCreaseOnlyError::PartialInsertion);
        }
        let (step, cp, added_edges) = FLAT.folded(cp, line, TechniqueKind::Simple, &Some(top.surface_faces));
        let vertices = if self.move_pose {
            vec![MaterialVertex { vertex: 0, x_bits: 0, y_bits: 0, z_bits: 0 }]
        } else {
            Vec::new()
        };
        Ok(CreasedTop { step, cp, added_edges, vertices })
    }
    fn replay_endpoint_uncached(&self, _doc: &Document, faces: &Vec<Face>, _up_to: usize) -> ColdReplay {
        ColdReplay {
            skipped: Vec::new(),
            converged: true,
            best_effort: false,
            faces: faces.iter().map(|f| SpatialFace { face: f.id, polygon: Vec::new() }).collect(),
        }
    }
    fn drift(&self, _actual: &Point3, _expected: &Point3) -> Drift {
        Drift::Within
    }
}

fn view_with_steps(store: &mut DocumentStore) -> DocumentView {
    fold_through(store, &FLAT, 0, None, None, None, None).unwrap()
}

#[test]
fn replay_of_a_work_without_steps_is_nothing() {
    let store = square_store();
    let view = store.preview_fold(&SquareKernel, 0, None, vec![PENETRATION.to_string()]).unwrap();
    let replayed = attach_replay(&CALM, view.clone(), &PENETRATION.to_string(), &FOLD_PENETRATION.to_string());
    assert_eq!(replayed.view, view);
    assert!(replayed.frame.is_none());
    assert!(!replayed.contact_detected);
    assert!(replayed.converged);
}

#[test]
fn replay_warnings_follow_the_view_and_keep_one_penetration_warning() {
    let mut store = square_store();
    let view = view_with_steps(&mut store);
    let kernel = StackKernel { intersect: true, ..CALM };
    let replayed = attach_replay(&kernel, view.clone(), &PENETRATION.to_string(), &FOLD_PENETRATION.to_string());
    assert!(replayed.contact_detected);
    assert_eq!(replayed.suspect_hinges, vec![4]);
    assert_eq!(replayed.flat_fold_violations, vec![7], "an angle missed its flat target");
    let n = view.warnings.len();
    assert_eq!(&replayed.view.warnings[..n], &view.warnings[..]);
    assert_eq!(&replayed.view.warnings[n..], &[PENETRATION.to_string(), "replayed".to_string()]);
    let frame = replayed.frame.unwrap();
    assert_eq!(frame.warnings, vec!["frame".to_string(), PENETRATION.to_string()]);
    assert_eq!(frame.geometry, vec!["overlap corrected: false".to_string()]);
}

#[test]
fn replay_without_detection_shows_no_penetration_warning() {
    let mut store = square_store();
    let display = DisplaySettings { penetration_prevention_enabled: false, ..store.document().display };
    store.apply_edit(&SquareKernel, EditOp::SetDisplay { display }).unwrap();
    let view = view_with_steps(&mut store);
    let kernel = StackKernel { intersect: true, conflicts: true, saved: false, ..CALM };
    let replayed = attach_replay(&kernel, view, &PENETRATION.to_string(), &FOLD_PENETRATION.to_string());
    assert!(!replayed.contact_detected, "intersections are looked for only with detection on");
    assert!(replayed.suspect_hinges.is_empty());
    assert!(!replayed.view.warnings.iter().any(|w| w == PENETRATION || w == FOLD_PENETRATION));
    assert_eq!(replayed.view.warnings.last().unwrap(), "replayed");
}

#[test]
fn replay_applies_the_layer_settings_only_without_a_saved_order() {
    let mut store = square_store();
    let display = DisplaySettings { overlap_prevention_enabled: true, ..store.document().display };
    store.apply_edit(&SquareKernel, EditOp::SetDisplay { display }).unwrap();
    let view = view_with_steps(&mut store);
    let kernel = StackKernel { conflicts: true, saved: false, ..CALM };
    let replayed = attach_replay(&kernel, view.clone(), &PENETRATION.to_string(), &FOLD_PENETRATION.to_string());
    let frame = replayed.frame.unwrap();
    assert_eq!(frame.faces.iter().map(|f| f.layer).collect::<Vec<_>>(), vec![1, 0], "layers from the shape");
    assert_eq!(frame.faces.iter().map(|f| f.surface_rank).collect::<Vec<_>>(), vec![0, 1], "the verified order stamped");
    assert_eq!(frame.geometry, vec!["stamped".to_string(), "overlap corrected: true".to_string()]);
    assert!(replayed.view.warnings.contains(&FOLD_PENETRATION.to_string()));

    let kernel = StackKernel { conflicts: true, saved: true, derived: false, ..CALM };
    let replayed = attach_replay(&kernel, view, &PENETRATION.to_string(), &FOLD_PENETRATION.to_string());
    let frame = replayed.frame.unwrap();
    assert_eq!(frame.faces.iter().map(|f| f.layer).collect::<Vec<_>>(), vec![0, 0]);
    assert!(frame.geometry.is_empty(), "no authoritative order, no overlap correction");
    assert!(!replayed.view.warnings.contains(&FOLD_PENETRATION.to_string()));
}

#[test]
fn penetration_warning_is_added_once_and_reported() {
    let mut frame = Frame { faces: Vec::new(), warnings: vec!["w".to_string()], geometry: Vec::new() };
    let p = PENETRATION.to_string();
    let fp = FOLD_PENETRATION.to_string();
    let cp = SquareKernel.new_document(paper(1.0, 1.0)).cp;
    let added = add_penetration_warning_for_intersections(&CALM, &cp, &Vec::new(), &mut frame, false, &vec![(0, 1)], &p, &fp);
    assert_eq!(added, vec![p.clone()]);
    let again = add_penetration_warning_for_intersections(&CALM, &cp, &Vec::new(), &mut frame, false, &vec![(0, 1)], &p, &fp);
    assert!(again.is_empty());
    assert_eq!(frame.warnings, vec!["w".to_string(), p.clone()]);
    let conflicting = StackKernel { conflicts: true, ..CALM };
    let added = add_penetration_warning_for_intersections(&conflicting, &cp, &Vec::new(), &mut frame, true, &Vec::new(), &p, &fp);
    assert_eq!(added, vec![fp.clone()]);
    assert!(add_layer_order_warning_only(&conflicting, &cp, &Vec::new(), &mut frame, &fp).is_none(), "once only");
}

#[test]
fn flat_fold_notice_points_out_only_missed_or_intersecting_flat_folds() {
    let mut cp = SquareKernel.new_document(paper(1.0, 1.0)).cp;
    SquareKernel.insert_segment(&mut cp, pt(0.5, 0.0), pt(0.5, 1.0), EdgeKind::Valley);
    let crease = cp.edges.last().unwrap().id;
    let flat = vec![PoseDriver { edge_id: crease, target_angle_bits: angle(-180.0) }];
    let reached = HashMap::from([(crease, angle(-180.0))]);
    let missed = HashMap::from([(crease, angle(-170.0))]);
    assert!(flat_fold_notice_violations(&CALM, &cp, &flat, &reached, false).is_empty());
    assert_eq!(flat_fold_notice_violations(&CALM, &cp, &flat, &reached, true), vec![7]);
    assert_eq!(flat_fold_notice_violations(&CALM, &cp, &flat, &missed, false), vec![7]);
    assert_eq!(flat_fold_notice_violations(&CALM, &cp, &flat, &HashMap::new(), false), vec![7]);
    let bent = vec![PoseDriver { edge_id: crease, target_angle_bits: angle(-90.0) }];
    assert!(flat_fold_notice_violations(&CALM, &cp, &bent, &missed, true).is_empty());
    assert_eq!(replay_flat_fold_notice_violations(&CALM, &cp, &flat, &reached, &vec![(0, 1)]), vec![7]);
}

#[test]
fn crease_only_top_records_the_crease_and_replays_it() {
    let mut store = square_store();
    let line = ((0.0, 0.5), (1.0, 0.5));
    let keep = (angle(0.25), angle(0.25));
    let p = PENETRATION.to_string();
    let fp = FOLD_PENETRATION.to_string();
    let replayed = store.apply_crease_only_top(&CALM, 0, &line, keep, None, &p, &fp).unwrap();
    assert_eq!(replayed.view.doc.sequence.len(), 1);
    assert_eq!(replayed.view.doc.sequence[0].note, "Some([0])", "the top sheet found under the point");
    assert_eq!(replayed.view.warnings[0], "posed");
    assert!(replayed.frame.is_some());
    assert_eq!(store.undo_history().len(), 1);
    assert_eq!(store.document(), &replayed.view.doc);
}

#[test]
fn crease_only_top_with_a_pose_records_the_pose_step_first() {
    let mut store = square_store();
    fold_through(&mut store, &FLAT, 0, None, None, None, None).unwrap();
    let crease = store.document().cp.edges.last().unwrap().id;
    let pose = vec![PoseDriver { edge_id: crease, target_angle_bits: angle(-90.0) }];
    let line = ((0.0, 0.5), (1.0, 0.5));
    let keep = (angle(0.25), angle(0.25));
    let p = PENETRATION.to_string();
    let fp = FOLD_PENETRATION.to_string();
    let replayed = store.apply_crease_only_top(&CALM, 1, &line, keep, Some(pose), &p, &fp).unwrap();
    let seq = &replayed.view.doc.sequence;
    assert_eq!(seq.len(), 3);
    assert_eq!(seq[1].kind, TechniqueKind::Pose);
    assert_eq!(seq[1].drivers.len(), 1);
    assert!(seq[1].id < seq[2].id);
    assert_eq!(store.undo_history().len(), 2);
}

#[test]
fn crease_only_top_refusals_change_nothing() {
    let mut store = square_store();
    let before = snapshot(&store);
    let line = ((0.0, 0.5), (1.0, 0.5));
    let keep = (angle(0.25), angle(0.25));
    let p = PENETRATION.to_string();
    let fp = FOLD_PENETRATION.to_string();
    assert_eq!(
        store.apply_crease_only_top(&CALM, 1, &line, keep, None, &p, &fp).err().unwrap(),
        "挿入位置 1 が手順の数を超えています"
    );
    assert_eq!(
        store.apply_crease_only_top(&CALM, 0, &line, (angle(f64::NAN), angle(0.25)), None, &p, &fp).err().unwrap(),
        "折り線の位置を読み取れないため、折り目を付けられません。"
    );
    let refusing = StackKernel { refuse_crease: true, ..CALM };
    assert_eq!(
        store.apply_crease_only_top(&refusing, 0, &line, keep, None, &p, &fp).err().unwrap(),
        "いちばん上の紙の全体へ折り目を付けられないため、変更しませんでした。"
    );
    let moving = StackKernel { move_pose: true, ..CALM };
    assert!(store.apply_crease_only_top(&moving, 0, &line, keep, None, &p, &fp).is_ok(), "a vertex only after is no move");
    let mut store = square_store();
    let pose = vec![PoseDriver { edge_id: 99, target_angle_bits: angle(-90.0) }];
    assert_eq!(
        store.apply_crease_only_top(&CALM, 0, &line, keep, Some(pose), &p, &fp).err().unwrap(),
        "折った形を再現する折り目が見つかりません"
    );
    assert_eq!(snapshot(&store), before);
}

#[test]
fn material_line_preview_gives_the_crease_only_verdict() {
    let store = square_store();
    let line = ((0.0, 0.5), (1.0, 0.5));
    let keep = (angle(0.25), angle(0.25));
    let view = store.preview_fold_targets_on_material(&CALM, 0, &line, keep, &None).unwrap();
    let info = view.fold_target_info.unwrap();
    assert_eq!(info.status, FoldTargetStatus::CreaseOnlyTop);
    assert_eq!(info.available_count, Some(0));
    assert_eq!(view.warnings[0], "posed");
    let refusing = StackKernel { refuse_crease: true, ..CALM };
    let view = store.preview_fold_targets_on_material(&refusing, 0, &line, keep, &None).unwrap();
    assert_eq!(view.fold_target_info.unwrap().status, FoldTargetStatus::Unavailable);
    let (info, warnings) = material_fold_target_info_at(&CALM, store.document(), store.faces(), 0, &line, (angle(f64::INFINITY), 0), &None);
    assert_eq!(info.status, FoldTargetStatus::Unavailable);
    assert_eq!(warnings, vec!["posed"]);
    assert!(store.preview_fold_targets_on_material(&CALM, 1, &line, keep, &None).is_err());
}

#[test]
fn flat_fold_notice_is_owed_on_a_miss_or_an_intersection() {
    assert_eq!(flat_fold_notice(vec![3, 4], &vec![Some(true), Some(true)], false), Vec::<u32>::new());
    assert_eq!(flat_fold_notice(vec![3, 4], &vec![Some(true), Some(false)], false), vec![3, 4]);
    assert_eq!(flat_fold_notice(vec![3, 4], &vec![None, Some(true)], false), vec![3, 4], "no angle is a miss");
    assert_eq!(flat_fold_notice(vec![3, 4], &vec![Some(true)], true), vec![3, 4]);
    assert_eq!(flat_fold_notice(vec![3], &Vec::new(), false), Vec::<u32>::new());
}

#[test]
fn penetration_warning_of_the_kernel_intersections_is_added_once() {
    let cp = SquareKernel.new_document(paper(1.0, 1.0)).cp;
    let p = PENETRATION.to_string();
    let fp = FOLD_PENETRATION.to_string();
    let mut frame = Frame { faces: Vec::new(), warnings: Vec::new(), geometry: Vec::new() };
    let intersecting = StackKernel { intersect: true, ..CALM };
    assert_eq!(add_penetration_warning(&intersecting, &cp, &Vec::new(), &mut frame, false, &p, &fp), vec![p.clone()]);
    assert!(add_penetration_warning(&intersecting, &cp, &Vec::new(), &mut frame, false, &p, &fp).is_empty());
    assert_eq!(frame.warnings, vec![p.clone()]);
    let mut clear = Frame { faces: Vec::new(), warnings: Vec::new(), geometry: Vec::new() };
    assert!(add_penetration_warning(&CALM, &cp, &Vec::new(), &mut clear, true, &p, &fp).is_empty());
}

#[test]
fn a_fold_inserted_before_later_steps_keeps_the_replay_notice() {
    let mut store = square_store();
    fold_through(&mut store, &FLAT, 0, None, None, None, None).unwrap();
    let view = fold_through(&mut store, &FLAT, 0, None, None, None, None).unwrap();
    assert_eq!(view.warnings[0], "state");
    assert!(view.warnings[1].starts_with("手順1の前に折りを挟みました"), "{:?}", view.warnings);
    assert_eq!(view.warnings[2], "folded");
    let line = ((0.0, 0.25), (1.0, 0.25));
    let p = PENETRATION.to_string();
    let fp = FOLD_PENETRATION.to_string();
    let view = store.apply_flat_motion(&FLAT, 1, &line, &p, &fp).unwrap();
    assert!(view.warnings[1].starts_with("手順2の前に折りを挟みました"), "{:?}", view.warnings);
    let view = store.apply_technique(&FLAT, 0, TechniqueKind::Pleat, &line, &p, &fp).unwrap();
    assert!(view.warnings[1].starts_with("手順1の前に折りを挟みました"), "{:?}", view.warnings);
}

#[test]
fn replay_of_no_step_fixes_every_replay_field() {
    let store = square_store();
    let view = store.preview_fold(&SquareKernel, 0, None, Vec::new()).unwrap();
    let replayed = attach_replay(&SquareKernel, view, &PENETRATION.to_string(), &FOLD_PENETRATION.to_string());
    assert!(replayed.details.is_none());
    assert!(replayed.targets.is_empty());
    assert!(replayed.angles.is_empty());
    assert!(replayed.suspect_hinges.is_empty());
    assert!(!replayed.best_effort);
    assert!(replayed.converged);
}

#[test]
fn a_proposal_without_faces_is_refused_before_its_steps_are_checked() {
    let mut store = square_store();
    let before = snapshot(&store);
    let none: Vec<Face> = Vec::new();
    assert_eq!(
        store.apply_proposal_with_faces(&SquareKernel, proposal_cp(), vec![step(0), step(0)], &none).unwrap_err(),
        "この展開図では紙の面が作れませんでした"
    );
    let faces = SquareKernel.extract_faces(&proposal_cp());
    assert_eq!(
        store.apply_proposal_with_faces(&SquareKernel, proposal_cp(), vec![step(0), step(0)], &faces).unwrap_err(),
        "同じ折り手順が二重に入っています"
    );
    assert_eq!(snapshot(&store), before);
    let view = store.apply_proposal_with_faces(&SquareKernel, proposal_cp(), vec![step(0), step(1)], &faces).unwrap();
    assert_eq!(view.doc.sequence.len(), 2);
    assert_eq!(store.document().cp, proposal_cp());
    assert!(store.crease_history().is_empty());
    assert_eq!(store.undo_history().len(), 1);
}

#[test]
fn undo_then_redo_gives_back_the_faces() {
    let mut store = square_store();
    store.apply_edit(&SquareKernel, diagonal()).unwrap();
    let faces_after_change = store.faces().clone();
    store.undo(&SquareKernel).unwrap();
    assert_ne!(store.faces(), &faces_after_change);
    store.redo(&SquareKernel).unwrap();
    assert_eq!(store.faces(), &faces_after_change);
}

#[test]
fn cached_faces_follow_every_change_of_the_pattern() {
    let mut store = square_store();
    let check = |store: &DocumentStore| {
        assert_eq!(store.faces(), &SquareKernel.extract_faces(&store.document().cp));
    };
    check(&store);
    store.apply_edit(&SquareKernel, diagonal()).unwrap();
    check(&store);
    store.apply_edit(&SquareKernel, diagonal_reverse()).unwrap();
    check(&store);
    store.apply_seq(&SquareKernel, SeqOp::PushStep { step: step(1) }, &PEN.to_string(), &FOLD_PEN.to_string()).unwrap();
    check(&store);
    store.undo(&SquareKernel).unwrap();
    check(&store);
    store.undo(&SquareKernel).unwrap();
    check(&store);
    store.redo(&SquareKernel).unwrap();
    check(&store);
    store.new_document(&SquareKernel, paper(100.0, 100.0)).unwrap();
    check(&store);
}

#[test]
fn new_document_is_the_kernels_work_for_the_requested_sheet() {
    let mut store = square_store();
    let view = store.new_document(&SquareKernel, paper(210.0, 297.0)).unwrap();
    let expected = SquareKernel.new_document(paper(210.0, 297.0));
    assert_eq!(store.document(), &expected);
    assert_eq!(view.doc, expected);
    assert_eq!(view.faces, SquareKernel.extract_faces(&expected.cp));
}

#[test]
fn a_view_lists_the_operation_warnings_then_the_validation_warnings() {
    let mut store = square_store();
    let view = store
        .apply_edit(&SquareKernel, EditOp::RemoveEdges { ids: vec![0] })
        .unwrap();
    let mut expected = vec!["輪郭線は削除できません".to_string()];
    expected.extend(SquareKernel.validate(&store.document().cp));
    assert_eq!(view.warnings, expected);
    assert_eq!(view.violations, SquareKernel.local_violations(&store.document().cp));
}

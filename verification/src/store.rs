//! The document store: the current work, its undo/redo history, the unsaved flag, the
//! save location and the warm start of the pose solver.
//!
//! Undo keeps whole snapshots taken before each change. A change is recorded only when
//! the document or its crease history really changes; past the history limit the oldest
//! snapshot is dropped. Every candidate is derived before anything is replaced, so an
//! operation that fails leaves the store exactly as it was.
use vstd::prelude::*;
use vstd::string::*;

use crate::edits::{edit_document, edit_effect, texts, EditOp};
use crate::kernel::CreaseKernel;
use crate::model::{
    clone_creases, clone_faces, creases_model, faces_model, same_creases, same_document,
    steps_model, with_sequence, CreasePattern, Document, DocumentModel, EdgeId, Face, FaceModel,
    FoldStep, FoldStepModel, Paper, SavedDocument, StepCreases, StepCreasesModel, StepId, VertexId,
};
use crate::steps::{
    added_crease_lines, check_insert_point, duplicate_ids, has_duplicate_ids, has_step,
    insert_step, keep_existing, move_step_in_sequence, msg_duplicate_step, msg_insert_out_of_range,
    msg_move_out_of_range, msg_step_not_found, new_crease_lines, next_step_id, push_step,
    record_step_creases, recorded, recorded_frontend, remove_step, retain_existing_steps,
    step_ids, crease_step_ids, fresh_step_id, update_step, first_index, moved, without_id,
    duplicate_step_message, record_frontend_step, insert_notices,
};
use crate::surface::{filter_penetration_warnings, without_messages};
use crate::fold_target::FoldTargetInfo;
use crate::replay::{attach_replay, ReplayKernel, ReplayedView};

use std::collections::HashMap;

verus! {

/// Largest number of changes that can be undone; beyond it the oldest is forgotten.
pub const MAX_UNDO: usize = 100;

/// A state of the work that undo and redo move between: the document and its crease
/// history always travel together.
#[derive(Debug, PartialEq)]
pub struct Snapshot {
    pub doc: Document,
    pub step_creases: Vec<StepCreases>,
}

/// Mathematical value of a [`Snapshot`].
pub struct SnapshotModel {
    pub doc: DocumentModel,
    pub step_creases: Seq<StepCreasesModel>,
}

impl View for Snapshot {
    type V = SnapshotModel;

    open spec fn view(&self) -> SnapshotModel {
        SnapshotModel { doc: self.doc@, step_creases: creases_model(self.step_creases@) }
    }
}

/// The models of a list of snapshots.
pub open spec fn snapshots_model(s: Seq<Snapshot>) -> Seq<SnapshotModel> {
    s.map_values(|x: Snapshot| x@)
}

/// What an operation hands back for display: the resulting work, the crease history of
/// its existing steps, the derived faces, the warnings (those of the operation first,
/// then the kernel's validation) and the vertices that cannot fold flat.
#[derive(Clone, Debug, PartialEq)]
pub struct DocumentView {
    pub doc: Document,
    pub step_creases: Vec<StepCreases>,
    pub faces: Vec<Face>,
    pub warnings: Vec<String>,
    pub violations: Vec<VertexId>,
    /// The verdict on a fold line, for a preview that asks for it.
    pub fold_target_info: Option<FoldTargetInfo>,
}

/// The document store.
#[derive(Debug)]
pub struct DocumentStore {
    doc: Document,
    step_creases: Vec<StepCreases>,
    faces: Vec<Face>,
    undo_stack: Vec<Snapshot>,
    redo_stack: Vec<Snapshot>,
    dirty: bool,
    path: Option<String>,
    pose_angles: Option<HashMap<EdgeId, u64>>,
    commit_count: usize,
    fail_next_move_step_derivation: bool,
}

/// Mathematical value of a [`DocumentStore`].
pub struct StoreModel {
    /// The current work.
    pub doc: DocumentModel,
    /// The lines each step added, by step (records of removed steps are kept).
    pub step_creases: Seq<StepCreasesModel>,
    /// The faces derived from the current crease pattern.
    pub faces: Seq<FaceModel>,
    /// States to go back to, oldest first.
    pub undo: Seq<SnapshotModel>,
    /// States to go forward to, the next one last.
    pub redo: Seq<SnapshotModel>,
    /// Whether the work has unsaved changes.
    pub dirty: bool,
    /// Where the work was last saved or opened from.
    pub path: Option<Seq<char>>,
    /// The last solved hinge angles (bit patterns, by edge), used to start the next
    /// solve.
    pub pose_angles: Option<Map<EdgeId, u64>>,
    /// How many times a candidate was handed to commit.
    pub commit_count: nat,
    /// Whether the next sequence move is to fail after its derivation.
    pub fail_next_move_step_derivation: bool,
}

/// The model of an optional string.
pub open spec fn opt_text(p: Option<String>) -> Option<Seq<char>> {
    match p {
        Some(s) => Some(s@),
        None => None,
    }
}

/// The model of optional hinge angles.
pub open spec fn opt_angles(a: Option<HashMap<EdgeId, u64>>) -> Option<Map<EdgeId, u64>> {
    match a {
        Some(v) => Some(v@),
        None => None,
    }
}

impl View for DocumentStore {
    type V = StoreModel;

    closed spec fn view(&self) -> StoreModel {
        StoreModel {
            doc: self.doc@,
            step_creases: creases_model(self.step_creases@),
            faces: faces_model(self.faces@),
            undo: snapshots_model(self.undo_stack@),
            redo: snapshots_model(self.redo_stack@),
            dirty: self.dirty,
            path: opt_text(self.path),
            pose_angles: opt_angles(self.pose_angles),
            commit_count: self.commit_count as nat,
            fail_next_move_step_derivation: self.fail_next_move_step_derivation,
        }
    }
}

// ---------------------------------------------------------------------------
// Specification of the transitions
// ---------------------------------------------------------------------------
/// The store keeps at most [`MAX_UNDO`] states to go back or forward to.
pub open spec fn well_formed(s: StoreModel) -> bool {
    s.undo.len() + s.redo.len() <= MAX_UNDO
}

/// The current state as a snapshot.
pub open spec fn snapshot_of(s: StoreModel) -> SnapshotModel {
    SnapshotModel { doc: s.doc, step_creases: s.step_creases }
}

/// The history after recording `x`: appended, dropping the oldest entry when full.
pub open spec fn pushed_capped(u: Seq<SnapshotModel>, x: SnapshotModel) -> Seq<SnapshotModel> {
    if u.len() >= MAX_UNDO {
        u.drop_first().push(x)
    } else {
        u.push(x)
    }
}

/// A counter advanced by one, staying at its largest value once there.
pub open spec fn counted(n: nat) -> nat {
    if n >= usize::MAX {
        n
    } else {
        n + 1
    }
}

/// The store after a candidate is committed: when the document or the crease history
/// differs from the current one, the current state is recorded for undo, the candidate
/// becomes current with the faces derived from it, the redo history is dropped and the
/// work is marked unsaved; otherwise nothing but the commit counter changes.
pub open spec fn committed(
    s: StoreModel,
    doc: DocumentModel,
    creases: Seq<StepCreasesModel>,
    faces: Seq<FaceModel>,
) -> StoreModel {
    if doc == s.doc && creases == s.step_creases {
        StoreModel { commit_count: counted(s.commit_count), ..s }
    } else {
        StoreModel {
            doc: doc,
            step_creases: creases,
            faces: faces,
            undo: pushed_capped(s.undo, snapshot_of(s)),
            redo: Seq::empty(),
            dirty: true,
            commit_count: counted(s.commit_count),
            ..s
        }
    }
}

/// The store after undo: the last recorded state becomes current (with the faces derived
/// from it) and the current one is kept for redo; the work is marked unsaved.
pub open spec fn undone(s: StoreModel, faces: Seq<FaceModel>) -> StoreModel
    recommends
        s.undo.len() > 0,
{
    StoreModel {
        doc: s.undo.last().doc,
        step_creases: s.undo.last().step_creases,
        faces: faces,
        undo: s.undo.drop_last(),
        redo: s.redo.push(snapshot_of(s)),
        dirty: true,
        ..s
    }
}

/// The store after redo: the state last undone becomes current again and the current
/// one is recorded for undo; the work is marked unsaved.
pub open spec fn redone(s: StoreModel, faces: Seq<FaceModel>) -> StoreModel
    recommends
        s.redo.len() > 0,
{
    StoreModel {
        doc: s.redo.last().doc,
        step_creases: s.redo.last().step_creases,
        faces: faces,
        undo: s.undo.push(snapshot_of(s)),
        redo: s.redo.drop_last(),
        dirty: true,
        ..s
    }
}

/// The store after a whole new work replaces the current one: no history, no crease
/// records beyond `creases`, no warm start.
pub open spec fn replaced(
    s: StoreModel,
    doc: DocumentModel,
    creases: Seq<StepCreasesModel>,
    faces: Seq<FaceModel>,
    dirty: bool,
    path: Option<Seq<char>>,
) -> StoreModel {
    StoreModel {
        doc: doc,
        step_creases: creases,
        faces: faces,
        undo: Seq::empty(),
        redo: Seq::empty(),
        dirty: dirty,
        path: path,
        pose_angles: None,
        ..s
    }
}

/// The store with its warm start set to `a`.
pub open spec fn with_pose(s: StoreModel, a: Option<Map<EdgeId, u64>>) -> StoreModel {
    StoreModel { pose_angles: a, ..s }
}

/// Whether some operation of the list replaces the whole crease pattern.
pub open spec fn replaces_crease_pattern(ops: Seq<EditOp>) -> bool {
    exists|i: int| 0 <= i < ops.len() && ops[i] is ReplaceCreasePattern
}

/// Whether the cached faces of `s` are the faces the kernel derives from its crease
/// pattern.
pub open spec fn faces_current<K: CreaseKernel>(kernel: &K, s: StoreModel) -> bool {
    s.faces == kernel.faces_of(s.doc.cp)
}

/// Whether `v` shows the state `s`: its work, the crease history of its existing steps,
/// and the faces and the not flat-foldable vertices the kernel finds in its pattern.
pub open spec fn shows<K: CreaseKernel>(kernel: &K, v: DocumentView, s: StoreModel) -> bool {
    &&& v.doc@ == s.doc
    &&& creases_model(v.step_creases@) == keep_existing(s.step_creases, step_ids(s.doc.sequence))
    &&& faces_model(v.faces@) == kernel.faces_of(s.doc.cp)
    &&& v.violations@ == kernel.violations_of(s.doc.cp)
}

/// The sheet of a new work at start-up: 150 mm by 150 mm.
pub open spec fn default_paper() -> Paper {
    Paper { width_bits: 0x4062_c000_0000_0000, height_bits: 0x4062_c000_0000_0000 }
}

// ---------------------------------------------------------------------------
// Messages
// ---------------------------------------------------------------------------
/// "Nothing can be undone any more".
pub open spec fn msg_nothing_to_undo() -> Seq<char> {
    "これ以上元に戻せません"@
}

/// "Nothing can be redone any more".
pub open spec fn msg_nothing_to_redo() -> Seq<char> {
    "これ以上やり直せません"@
}

/// "There is nothing to edit".
pub open spec fn msg_no_edit() -> Seq<char> {
    "編集する内容がありません"@
}

/// "No face of paper can be made from this crease pattern".
pub open spec fn msg_no_faces() -> Seq<char> {
    "この展開図では紙の面が作れませんでした"@
}

/// "No save location is given".
pub open spec fn msg_no_save_target() -> Seq<char> {
    "保存先が指定されていません"@
}

/// "Deriving the moved sequence failed".
pub open spec fn msg_move_derivation_failed() -> Seq<char> {
    "MoveStepの導出に失敗しました"@
}

// ---------------------------------------------------------------------------
// Views
// ---------------------------------------------------------------------------
/// The view of a candidate: the work, the crease history of its existing steps, the
/// faces, the operation's warnings followed by the kernel's validation warnings, and the
/// vertices that cannot fold flat.
pub fn build_view<K: CreaseKernel>(
    kernel: &K,
    doc: &Document,
    step_creases: &Vec<StepCreases>,
    warnings: Vec<String>,
) -> (r: DocumentView)
    ensures
        r.doc@ == doc@,
        creases_model(r.step_creases@) == keep_existing(
            creases_model(step_creases@),
            step_ids(doc@.sequence),
        ),
        faces_model(r.faces@) == kernel.faces_of(doc@.cp),
        r.violations@ == kernel.violations_of(doc@.cp),
        texts(r.warnings@) == texts(warnings@) + kernel.validation_of(doc@.cp),
        r.warnings@.len() >= warnings@.len(),
        texts(r.warnings@).subrange(0, warnings@.len() as int) == texts(warnings@),
        r.fold_target_info is None,
{
    let mut all = warnings;
    let ghost first = all@;
    let more = kernel.validate(&doc.cp);
    let mut i: usize = 0;
    while i < more.len()
        invariant
            i <= more.len(),
            all@.len() == first.len() + i,
            texts(all@) == texts(first) + texts(more@).take(i as int),
        decreases more.len() - i,
    {
        let ghost prev = all@;
        all.push(more[i].clone());
        proof {
            assert(texts(all@) =~= texts(prev).push(more@[i as int]@));
            assert(texts(more@).take(i + 1) =~= texts(more@).take(i as int).push(more@[i as int]@));
            assert(texts(all@) =~= texts(first) + texts(more@).take(i + 1));
        }
        i = i + 1;
    }
    proof {
        assert(texts(more@).take(more@.len() as int) =~= texts(more@));
        assert(texts(all@).subrange(0, first.len() as int) =~= texts(first));
    }
    DocumentView {
        doc: doc.clone(),
        step_creases: retain_existing_steps(doc, step_creases),
        faces: kernel.extract_faces(&doc.cp),
        warnings: all,
        violations: kernel.local_violations(&doc.cp),
        fold_target_info: None,
    }
}

/// Why a work from another program could not be brought in: its file could not be read,
/// or it holds what the editor cannot represent.
#[derive(Clone, Copy, Debug, PartialEq, Eq, Structural)]
pub enum FoldImportError {
    Parse,
    Conversion,
}

/// The message shown for a failed import.
pub open spec fn fold_import_error_text(e: FoldImportError) -> Seq<char> {
    match e {
        FoldImportError::Parse => "ほかの折り紙ソフトのファイルを読み取れませんでした。ファイルの内容を確認してください。"@,
        FoldImportError::Conversion => "このファイルには、ORIGAMI3で扱えない内容があります。"@,
    }
}

impl FoldImportError {
    /// The message shown to the user, which names no internal detail of the failure.
    pub fn message(&self) -> (r: String)
        ensures
            r@ == fold_import_error_text(*self),
    {
        match self {
            FoldImportError::Parse => String::from_str(
                "ほかの折り紙ソフトのファイルを読み取れませんでした。ファイルの内容を確認してください。",
            ),
            FoldImportError::Conversion => String::from_str("このファイルには、ORIGAMI3で扱えない内容があります。"),
        }
    }
}

impl Clone for Snapshot {
    fn clone(&self) -> (r: Self)
        ensures
            r@ == self@,
    {
        Snapshot { doc: self.doc.clone(), step_creases: clone_creases(&self.step_creases) }
    }
}

impl DocumentStore {
    /// A store holding `doc` (with no crease record), with no history, saved nowhere
    /// and with no unsaved change. The view of the work is derived by the kernel.
    pub fn with_document<K: CreaseKernel>(kernel: &K, doc: Document) -> (r: DocumentStore)
        ensures
            well_formed(r@),
            r@.doc == doc@,
            faces_current(kernel, r@),
            r@.step_creases.len() == 0,
            r@.undo.len() == 0,
            r@.redo.len() == 0,
            !r@.dirty,
            r@.path is None,
            r@.pose_angles is None,
            r@.commit_count == 0,
            !r@.fail_next_move_step_derivation,
    {
        let faces = kernel.extract_faces(&doc.cp);
        let r = DocumentStore {
            doc,
            step_creases: Vec::new(),
            faces,
            undo_stack: Vec::new(),
            redo_stack: Vec::new(),
            dirty: false,
            path: None,
            pose_angles: None,
            commit_count: 0,
            fail_next_move_step_derivation: false,
        };
        proof {
            assert(creases_model(r.step_creases@) =~= Seq::empty());
            assert(snapshots_model(r.undo_stack@) =~= Seq::empty());
            assert(snapshots_model(r.redo_stack@) =~= Seq::empty());
        }
        r
    }

    /// The store at start-up: the kernel's new work for a 150 mm square sheet, with no
    /// history, saved nowhere.
    pub fn with_default_document<K: CreaseKernel>(kernel: &K) -> (r: DocumentStore)
        ensures
            well_formed(r@),
            r@.doc == kernel.doc_for(default_paper()),
            faces_current(kernel, r@),
            r@.step_creases.len() == 0,
            r@.undo.len() == 0,
            r@.redo.len() == 0,
            !r@.dirty,
            r@.path is None,
            r@.pose_angles is None,
            r@.commit_count == 0,
            !r@.fail_next_move_step_derivation,
    {
        let paper = Paper { width_bits: 0x4062_c000_0000_0000, height_bits: 0x4062_c000_0000_0000 };
        let doc = kernel.new_document(paper);
        DocumentStore::with_document(kernel, doc)
    }

    /// A new work for `paper`; history and save location are discarded. A sheet whose
    /// width or height is not greater than zero is refused and nothing changes.
    pub fn new_document<K: CreaseKernel>(&mut self, kernel: &K, paper: Paper) -> (r: Result<DocumentView, String>)
        requires
            well_formed(old(self)@),
        ensures
            r is Ok <==> (crate::edits::is_positive(paper.width_bits)
                && crate::edits::is_positive(paper.height_bits)),
            r matches Err(e) ==> e@ == crate::edits::msg_paper_not_positive() && final(self)@
                == old(self)@,
            r matches Ok(v) ==> final(self)@ == replaced(
                old(self)@,
                kernel.doc_for(paper),
                Seq::empty(),
                kernel.faces_of(kernel.doc_for(paper).cp),
                false,
                None,
            ) && shows(kernel, v, final(self)@),
            r is Ok ==> faces_current(kernel, final(self)@),
            faces_current(kernel, old(self)@) ==> faces_current(kernel, final(self)@),
            well_formed(final(self)@),
    {
        crate::edits::check_paper(&paper)?;
        let doc = kernel.new_document(paper);
        let none: Vec<StepCreases> = Vec::new();
        let view = build_view(kernel, &doc, &none, Vec::new());
        proof {
            assert(creases_model(none@) =~= Seq::empty());
        }
        self.reset(doc, none, clone_faces(&view.faces), false, None);
        Ok(view)
    }

    /// Makes a loaded work current, with no history and no warm start.
    fn reset(
        &mut self,
        doc: Document,
        step_creases: Vec<StepCreases>,
        faces: Vec<Face>,
        dirty: bool,
        path: Option<String>,
    )
        ensures
            final(self)@ == replaced(
                old(self)@,
                doc@,
                creases_model(step_creases@),
                faces_model(faces@),
                dirty,
                opt_text(path),
            ),
    {
        self.doc = doc;
        self.step_creases = step_creases;
        self.faces = faces;
        self.undo_stack = Vec::new();
        self.redo_stack = Vec::new();
        self.dirty = dirty;
        self.path = path;
        self.pose_angles = None;
        proof {
            assert(snapshots_model(self.undo_stack@) =~= Seq::empty());
            assert(snapshots_model(self.redo_stack@) =~= Seq::empty());
        }
    }

    /// Makes a work read from `path` current: history discarded, nothing unsaved, saved
    /// at `path`.
    pub fn open<K: CreaseKernel>(&mut self, kernel: &K, saved: SavedDocument, path: String) -> (r: DocumentView)
        ensures
            r.doc@ == saved.document@,
            final(self)@ == replaced(
                old(self)@,
                saved.document@,
                creases_model(saved.step_creases@),
                kernel.faces_of(saved.document@.cp),
                false,
                Some(path@),
            ),
            shows(kernel, r, final(self)@),
            faces_current(kernel, final(self)@),
            well_formed(final(self)@),
    {
        let view = build_view(kernel, &saved.document, &saved.step_creases, Vec::new());
        self.reset(
            saved.document,
            saved.step_creases,
            clone_faces(&view.faces),
            false,
            Some(path),
        );
        view
    }

    /// Makes a work recovered from an automatic save current: history discarded, saved
    /// at the location the work had, and unsaved, since it was never written there.
    pub fn restore<K: CreaseKernel>(
        &mut self,
        kernel: &K,
        saved: SavedDocument,
        path: Option<String>,
    ) -> (r: DocumentView)
        ensures
            r.doc@ == saved.document@,
            final(self)@ == replaced(
                old(self)@,
                saved.document@,
                creases_model(saved.step_creases@),
                kernel.faces_of(saved.document@.cp),
                true,
                opt_text(path),
            ),
            shows(kernel, r, final(self)@),
            faces_current(kernel, final(self)@),
            well_formed(final(self)@),
    {
        let view = build_view(kernel, &saved.document, &saved.step_creases, Vec::new());
        self.reset(saved.document, saved.step_creases, clone_faces(&view.faces), true, path);
        view
    }

    /// Brings in a work converted from another program as one change that a single undo
    /// takes back. It is unsaved, has no save location (the source file is not one) and
    /// no crease record.
    pub fn import_fold<K: CreaseKernel>(&mut self, kernel: &K, document: Document) -> (r: DocumentView)
        requires
            well_formed(old(self)@),
        ensures
            r.doc@ == document@,
            r.step_creases@.len() == 0,
            final(self)@ == (StoreModel {
                dirty: true,
                path: None,
                pose_angles: None,
                ..committed(old(self)@, document@, Seq::empty(), kernel.faces_of(document@.cp))
            }),
            faces_current(kernel, old(self)@) ==> faces_current(kernel, final(self)@),
            well_formed(final(self)@),
    {
        let step_creases: Vec<StepCreases> = Vec::new();
        let view = build_view(kernel, &document, &step_creases, Vec::new());
        proof {
            assert(creases_model(step_creases@) =~= Seq::empty());
        }
        let view = self.commit_prebuilt(document, step_creases, view);
        self.dirty = true;
        self.path = None;
        self.pose_angles = None;
        view
    }

    /// The saved form of the work: the document and the crease records of the steps
    /// that still exist (records of removed steps are not written, so that a reopened
    /// work's new steps never pick them up).
    pub fn saved_document(&self) -> (r: SavedDocument)
        ensures
            r.document@ == self@.doc,
            creases_model(r.step_creases@) == keep_existing(
                self@.step_creases,
                step_ids(self@.doc.sequence),
            ),
    {
        SavedDocument {
            document: self.doc.clone(),
            step_creases: retain_existing_steps(&self.doc, &self.step_creases),
        }
    }

    /// Where a save goes: the given location, else the one the work was last saved at.
    pub fn save_target(&self, path: Option<String>) -> (r: Result<String, String>)
        ensures
            path is Some ==> (r matches Ok(t) && Some(t@) == opt_text(path)),
            path is None && self@.path is Some ==> (r matches Ok(t) && Some(t@) == self@.path),
            path is None && self@.path is None ==> (r matches Err(e) && e@ == msg_no_save_target()),
    {
        match path {
            Some(p) => Ok(p),
            None => match &self.path {
                Some(p) => Ok(p.clone()),
                None => Err(String::from_str("保存先が指定されていません")),
            },
        }
    }

    /// Records that the work was written to `target`: it is the save location from now
    /// on and nothing is unsaved.
    pub fn mark_saved(&mut self, target: String)
        ensures
            final(self)@ == (StoreModel { path: Some(target@), dirty: false, ..old(self)@ }),
    {
        self.path = Some(target);
        self.dirty = false;
    }

    /// Whether the work has unsaved changes.
    pub fn is_dirty(&self) -> (r: bool)
        ensures
            r == self@.dirty,
    {
        self.dirty
    }

    /// Where the work was last saved or opened from (`None` for a new, unsaved work).
    pub fn current_path(&self) -> (r: Option<String>)
        ensures
            opt_text(r) == self@.path,
    {
        match &self.path {
            Some(p) => Some(p.clone()),
            None => None,
        }
    }

    /// What an automatic save needs: the save location and a copy of the saved form, or
    /// nothing when no change is unsaved. The location and the unsaved flag stay as they
    /// are, so an automatic save never takes over the work's own location.
    pub fn autosave_snapshot(&self) -> (r: Option<(Option<String>, SavedDocument)>)
        ensures
            r is None <==> !self@.dirty,
            r matches Some(p) ==> opt_text(p.0) == self@.path && p.1.document@ == self@.doc
                && creases_model(p.1.step_creases@) == keep_existing(
                self@.step_creases,
                step_ids(self@.doc.sequence),
            ),
    {
        if !self.dirty {
            return None;
        }
        Some((self.current_path(), self.saved_document()))
    }

    /// Copies of what the pose solver needs: the work, the derived faces, the last
    /// solution and the two contact settings.
    pub fn pose_inputs(&self) -> (r: (Document, Vec<Face>, Option<HashMap<EdgeId, u64>>, bool, bool))
        ensures
            r.0@ == self@.doc,
            faces_model(r.1@) == self@.faces,
            opt_angles(r.2) == self@.pose_angles,
            r.3 == self@.doc.display.overlap_prevention_enabled,
            r.4 == self@.doc.display.penetration_prevention_enabled,
    {
        let angles = match &self.pose_angles {
            Some(a) => {
                let c = a.clone();
                Some(c)
            },
            None => None,
        };
        (
            self.doc.clone(),
            clone_faces(&self.faces),
            angles,
            self.doc.display.overlap_prevention_enabled,
            self.doc.display.penetration_prevention_enabled,
        )
    }

    /// Copies of what replaying the sequence needs: the work and the derived faces.
    pub fn replay_inputs(&self) -> (r: (Document, Vec<Face>))
        ensures
            r.0@ == self@.doc,
            faces_model(r.1@) == self@.faces,
    {
        (self.doc.clone(), clone_faces(&self.faces))
    }

    /// A copy of the work for exporting.
    pub fn export_inputs(&self) -> (r: Document)
        ensures
            r@ == self@.doc,
    {
        self.doc.clone()
    }

    /// Keeps the solved angles to start the next solve from.
    pub fn store_pose_angles(&mut self, angles: HashMap<EdgeId, u64>)
        ensures
            final(self)@ == with_pose(old(self)@, Some(angles@)),
    {
        self.pose_angles = Some(angles);
    }

    /// The current work.
    pub fn document(&self) -> (r: &Document)
        ensures
            r@ == self@.doc,
    {
        &self.doc
    }

    /// The crease records kept for the steps, removed steps' records included.
    pub fn crease_history(&self) -> (r: &Vec<StepCreases>)
        ensures
            creases_model(r@) == self@.step_creases,
    {
        &self.step_creases
    }

    /// The faces derived from the current crease pattern.
    pub fn faces(&self) -> (r: &Vec<Face>)
        ensures
            faces_model(r@) == self@.faces,
    {
        &self.faces
    }

    /// The states undo goes back to, oldest first.
    pub fn undo_history(&self) -> (r: &Vec<Snapshot>)
        ensures
            snapshots_model(r@) == self@.undo,
    {
        &self.undo_stack
    }

    /// The states redo goes forward to, the next one last.
    pub fn redo_history(&self) -> (r: &Vec<Snapshot>)
        ensures
            snapshots_model(r@) == self@.redo,
    {
        &self.redo_stack
    }

    /// A store in exactly the given state, with the commit counter at zero and no
    /// injected failure. The two histories together hold at most [`MAX_UNDO`] states.
    pub fn from_parts(
        doc: Document,
        step_creases: Vec<StepCreases>,
        faces: Vec<Face>,
        undo: Vec<Snapshot>,
        redo: Vec<Snapshot>,
        dirty: bool,
        path: Option<String>,
        pose_angles: Option<HashMap<EdgeId, u64>>,
    ) -> (r: DocumentStore)
        requires
            undo@.len() + redo@.len() <= MAX_UNDO,
        ensures
            r@ == (StoreModel {
                doc: doc@,
                step_creases: creases_model(step_creases@),
                faces: faces_model(faces@),
                undo: snapshots_model(undo@),
                redo: snapshots_model(redo@),
                dirty,
                path: opt_text(path),
                pose_angles: opt_angles(pose_angles),
                commit_count: 0,
                fail_next_move_step_derivation: false,
            }),
            well_formed(r@),
    {
        DocumentStore {
            doc,
            step_creases,
            faces,
            undo_stack: undo,
            redo_stack: redo,
            dirty,
            path,
            pose_angles,
            commit_count: 0,
            fail_next_move_step_derivation: false,
        }
    }

    // -----------------------------------------------------------------------
    // Commit counter and injected failure
    // -----------------------------------------------------------------------
    /// Sets the commit counter back to zero.
    pub fn reset_commit_count_for_test(&mut self)
        ensures
            final(self)@ == (StoreModel { commit_count: 0, ..old(self)@ }),
    {
        self.commit_count = 0;
    }

    /// How many candidates were handed to commit since the counter was last reset.
    pub fn commit_count_for_test(&self) -> (r: usize)
        ensures
            r as nat == self@.commit_count,
    {
        self.commit_count
    }

    /// Counts one commit.
    pub fn record_commit_for_test(&mut self)
        ensures
            final(self)@ == (StoreModel { commit_count: counted(old(self)@.commit_count), ..old(self)@ }),
    {
        self.commit_count = self.commit_count.saturating_add(1);
    }

    /// Makes the next sequence move fail after its derivation, before it is committed.
    pub fn fail_next_move_step_derivation_for_test(&mut self)
        ensures
            final(self)@ == (StoreModel { fail_next_move_step_derivation: true, ..old(self)@ }),
    {
        self.fail_next_move_step_derivation = true;
    }

    /// Consumes a requested derivation failure: whether one was requested.
    pub fn fail_move_step_derivation_if_requested(&mut self) -> (r: bool)
        ensures
            r == old(self)@.fail_next_move_step_derivation,
            final(self)@ == (StoreModel { fail_next_move_step_derivation: false, ..old(self)@ }),
    {
        let requested = self.fail_next_move_step_derivation;
        self.fail_next_move_step_derivation = false;
        requested
    }

    // -----------------------------------------------------------------------
    // Commit, undo, redo
    // -----------------------------------------------------------------------
    /// Commits a candidate whose view is already derived, all at once: when it differs
    /// from the current state the current state is recorded for undo.
    pub fn commit_prebuilt(
        &mut self,
        doc: Document,
        step_creases: Vec<StepCreases>,
        view: DocumentView,
    ) -> (r: DocumentView)
        requires
            well_formed(old(self)@),
        ensures
            final(self)@ == committed(
                old(self)@,
                doc@,
                creases_model(step_creases@),
                faces_model(view.faces@),
            ),
            r == view,
            well_formed(final(self)@),
    {
        self.record_commit_for_test();
        if same_document(&doc, &self.doc) && same_creases(&step_creases, &self.step_creases) {
            return view;
        }
        let ghost before = self@;
        let ghost old_undo = self.undo_stack@;
        if self.undo_stack.len() >= MAX_UNDO {
            self.undo_stack.remove(0);
            proof {
                assert(snapshots_model(self.undo_stack@) =~= snapshots_model(old_undo).drop_first());
            }
        }
        let ghost mid_undo = self.undo_stack@;
        let mut cur_doc = doc;
        let mut cur_creases = step_creases;
        std::mem::swap(&mut cur_doc, &mut self.doc);
        std::mem::swap(&mut cur_creases, &mut self.step_creases);
        let prev = Snapshot { doc: cur_doc, step_creases: cur_creases };
        self.undo_stack.push(prev);
        proof {
            assert(snapshots_model(self.undo_stack@) =~= snapshots_model(mid_undo).push(
                snapshot_of(before),
            ));
        }
        self.faces = clone_faces(&view.faces);
        self.redo_stack = Vec::new();
        proof {
            assert(snapshots_model(self.redo_stack@) =~= Seq::empty());
        }
        self.dirty = true;
        view
    }

    /// Derives the view of a candidate and commits it.
    pub fn commit<K: CreaseKernel>(
        &mut self,
        kernel: &K,
        doc: Document,
        step_creases: Vec<StepCreases>,
        warnings: Vec<String>,
    ) -> (r: DocumentView)
        requires
            well_formed(old(self)@),
        ensures
            r.doc@ == doc@,
            texts(r.warnings@) == texts(warnings@) + kernel.validation_of(doc@.cp),
            r.warnings@.len() >= warnings@.len(),
            texts(r.warnings@).subrange(0, warnings@.len() as int) == texts(warnings@),
            r.fold_target_info is None,
            final(self)@ == committed(
                old(self)@,
                doc@,
                creases_model(step_creases@),
                kernel.faces_of(doc@.cp),
            ),
            shows(kernel, r, final(self)@),
            faces_current(kernel, old(self)@) ==> faces_current(kernel, final(self)@),
            well_formed(final(self)@),
    {
        let view = build_view(kernel, &doc, &step_creases, warnings);
        self.commit_prebuilt(doc, step_creases, view)
    }

    /// Goes back to the state before the last recorded change.
    pub fn undo<K: CreaseKernel>(&mut self, kernel: &K) -> (r: Result<DocumentView, String>)
        requires
            well_formed(old(self)@),
        ensures
            old(self)@.undo.len() == 0 ==> (r matches Err(e) && e@ == msg_nothing_to_undo()
                && final(self)@ == old(self)@),
            old(self)@.undo.len() > 0 ==> (r matches Ok(v) && v.doc@ == final(self)@.doc
                && final(self)@ == undone(old(self)@, kernel.faces_of(old(self)@.undo.last().doc.cp))
                && shows(kernel, v, final(self)@) && faces_current(kernel, final(self)@)),
            faces_current(kernel, old(self)@) ==> faces_current(kernel, final(self)@),
            well_formed(final(self)@),
    {
        let n = self.undo_stack.len();
        if n == 0 {
            return Err(String::from_str("これ以上元に戻せません"));
        }
        let view = build_view(
            kernel,
            &self.undo_stack[n - 1].doc,
            &self.undo_stack[n - 1].step_creases,
            Vec::new(),
        );
        let ghost before = self@;
        let ghost old_redo = self.redo_stack@;
        let ghost old_undo = self.undo_stack@;
        let prev = self.undo_stack.pop().unwrap();
        proof {
            assert(snapshots_model(self.undo_stack@) =~= snapshots_model(old_undo).drop_last());
            assert(prev@ == snapshots_model(old_undo).last());
        }
        let mut prev_doc = prev.doc;
        let mut prev_creases = prev.step_creases;
        std::mem::swap(&mut prev_doc, &mut self.doc);
        std::mem::swap(&mut prev_creases, &mut self.step_creases);
        self.redo_stack.push(Snapshot { doc: prev_doc, step_creases: prev_creases });
        proof {
            assert(snapshots_model(self.redo_stack@) =~= snapshots_model(old_redo).push(
                snapshot_of(before),
            ));
        }
        self.faces = clone_faces(&view.faces);
        self.dirty = true;
        Ok(view)
    }

    /// Goes forward to the state the last undo left.
    pub fn redo<K: CreaseKernel>(&mut self, kernel: &K) -> (r: Result<DocumentView, String>)
        requires
            well_formed(old(self)@),
        ensures
            old(self)@.redo.len() == 0 ==> (r matches Err(e) && e@ == msg_nothing_to_redo()
                && final(self)@ == old(self)@),
            old(self)@.redo.len() > 0 ==> (r matches Ok(v) && v.doc@ == final(self)@.doc
                && final(self)@ == redone(old(self)@, kernel.faces_of(old(self)@.redo.last().doc.cp))
                && shows(kernel, v, final(self)@) && faces_current(kernel, final(self)@)),
            faces_current(kernel, old(self)@) ==> faces_current(kernel, final(self)@),
            well_formed(final(self)@),
    {
        let n = self.redo_stack.len();
        if n == 0 {
            return Err(String::from_str("これ以上やり直せません"));
        }
        let view = build_view(
            kernel,
            &self.redo_stack[n - 1].doc,
            &self.redo_stack[n - 1].step_creases,
            Vec::new(),
        );
        let ghost before = self@;
        let ghost old_redo = self.redo_stack@;
        let ghost old_undo = self.undo_stack@;
        let next = self.redo_stack.pop().unwrap();
        proof {
            assert(snapshots_model(self.redo_stack@) =~= snapshots_model(old_redo).drop_last());
            assert(next@ == snapshots_model(old_redo).last());
        }
        let mut next_doc = next.doc;
        let mut next_creases = next.step_creases;
        std::mem::swap(&mut next_doc, &mut self.doc);
        std::mem::swap(&mut next_creases, &mut self.step_creases);
        self.undo_stack.push(Snapshot { doc: next_doc, step_creases: next_creases });
        proof {
            assert(snapshots_model(self.undo_stack@) =~= snapshots_model(old_undo).push(
                snapshot_of(before),
            ));
        }
        self.faces = clone_faces(&view.faces);
        self.dirty = true;
        Ok(view)
    }
}


// ---------------------------------------------------------------------------
// Editing and sequence operations
// ---------------------------------------------------------------------------
/// Whether `ds` and `ws` are the documents and warnings of a run of the first `n`
/// operations of `ops`, each succeeding.
pub open spec fn edit_run<K: CreaseKernel>(
    kernel: &K,
    ops: Seq<EditOp>,
    ds: Seq<DocumentModel>,
    ws: Seq<Seq<Seq<char>>>,
    n: int,
) -> bool {
    &&& 0 <= n <= ops.len()
    &&& ds.len() == n + 1
    &&& ws.len() == n + 1
    &&& forall|i: int|
        0 <= i < n ==> #[trigger] edit_effect(kernel, ops[i], ds[i], ws[i], Ok(()), ds[i + 1], ws[i + 1])
}

/// A fold-sequence operation sent by the editor.
#[derive(Debug)]
pub enum SeqOp {
    /// Append a step.
    PushStep { step: FoldStep },
    /// Insert a step at `index` (at most the number of steps).
    InsertStep { index: usize, step: FoldStep },
    /// Remove every step with identifier `id`.
    RemoveStep { id: StepId },
    /// Move the step with identifier `id` so that it ends at `to_index`.
    MoveStep { id: StepId, to_index: usize },
    /// Replace the step that has the identifier of `step`.
    UpdateStep { step: FoldStep },
}

/// What a fold-sequence operation does to the store `s`, when it ends with `r` and
/// leaves `s2`.
pub open spec fn seq_effect(op: SeqOp, s: StoreModel, r: Result<DocumentView, String>, s2: StoreModel) -> bool {
    &&& (r is Err ==> s2.doc == s.doc && s2.step_creases == s.step_creases && s2.undo == s.undo
        && s2.redo == s.redo)
    &&& (r matches Ok(v) ==> v.doc@ == s2.doc)
    &&& match op {
        SeqOp::PushStep { step } => {
            &&& r is Ok
            &&& s2 == committed(
                s,
                with_sequence(s.doc, s.doc.sequence.push(step@)),
                recorded_frontend(s.step_creases, step@),
                s2.faces,
            )
        },
        SeqOp::InsertStep { index, step } => if index > s.doc.sequence.len() {
            &&& r matches Err(e)
            &&& e@ == msg_insert_out_of_range(index as nat)
            &&& s2 == s
        } else {
            &&& r is Ok
            &&& s2 == committed(
                s,
                with_sequence(s.doc, s.doc.sequence.insert(index as int, step@)),
                recorded_frontend(s.step_creases, step@),
                s2.faces,
            )
        },
        SeqOp::RemoveStep { id } => if !has_step(s.doc.sequence, id) {
            &&& r matches Err(e)
            &&& e@ == msg_step_not_found(id as nat)
            &&& s2 == s
        } else {
            &&& r is Ok
            &&& s2 == committed(
                s,
                with_sequence(s.doc, without_id(s.doc.sequence, id)),
                s.step_creases,
                s2.faces,
            )
        },
        SeqOp::UpdateStep { step } => if !has_step(s.doc.sequence, step@.id) {
            &&& r matches Err(e)
            &&& e@ == msg_step_not_found(step@.id as nat)
            &&& s2 == s
        } else {
            &&& r is Ok
            &&& s2 == committed(
                s,
                with_sequence(
                    s.doc,
                    s.doc.sequence.update(first_index(s.doc.sequence, step@.id), step@),
                ),
                s.step_creases,
                s2.faces,
            )
        },
        SeqOp::MoveStep { id, to_index } => if has_duplicate_ids(s.doc.sequence) {
            &&& r matches Err(e)
            &&& e@ == msg_duplicate_step()
            &&& s2 == s
        } else if !has_step(s.doc.sequence, id) {
            &&& r matches Err(e)
            &&& e@ == msg_step_not_found(id as nat)
            &&& s2 == s
        } else if to_index >= s.doc.sequence.len() {
            &&& r matches Err(e)
            &&& e@ == msg_move_out_of_range(to_index as nat)
            &&& s2 == s
        } else if s.fail_next_move_step_derivation {
            &&& r matches Err(e)
            &&& e@ == msg_move_derivation_failed()
            &&& s2 == (StoreModel { fail_next_move_step_derivation: false, ..s })
        } else {
            let from = first_index(s.doc.sequence, id);
            &&& r is Ok
            &&& from == to_index ==> s2 == s
            &&& from != to_index ==> s2 == committed(
                s,
                with_sequence(s.doc, moved(s.doc.sequence, from, to_index as int)),
                s.step_creases,
                s2.faces,
            )
        },
    }
}

/// The warnings of a recorded fold: `leading` (those of reaching the folded state), the
/// notice about replaying later steps when the fold goes before them, then `trailing`
/// (those of the fold), without the penetration warnings where the work's detection is
/// off; validation warnings may follow.
pub open spec fn fold_warnings(
    w: Seq<Seq<char>>,
    leading: Seq<Seq<char>>,
    trailing: Seq<Seq<char>>,
    doc: DocumentModel,
    up_to: nat,
    penetration: Seq<char>,
    fold_penetration: Seq<char>,
) -> bool {
    let all = leading + insert_notices(up_to, doc.sequence.len()) + trailing;
    let shown = if doc.display.penetration_prevention_enabled {
        all
    } else {
        without_messages(all, penetration, fold_penetration)
    };
    w.len() >= shown.len() && w.subrange(0, shown.len() as int) == shown
}

/// The view of an operation's result, without its replay.
pub open spec fn plain_view<G, D>(r: Result<ReplayedView<G, D>, String>) -> Result<DocumentView, String> {
    match r {
        Ok(v) => Ok(v.view),
        Err(e) => Err(e),
    }
}

/// A view that comes without a replay of the steps.
pub fn unreplayed<G, D>(view: DocumentView) -> (r: ReplayedView<G, D>)
    ensures
        r.view == view,
        r.frame is None,
        r.details is None,
        r.targets@.len() == 0,
        r.angles@ == Map::<crate::model::EdgeId, u64>::empty(),
        r.skipped@.len() == 0,
        r.suspect_hinges@.len() == 0,
        r.flat_fold_violations@.len() == 0,
        !r.contact_detected,
        !r.best_effort,
        r.converged,
{
    ReplayedView {
        view,
        frame: None,
        details: None,
        targets: Vec::new(),
        angles: HashMap::new(),
        skipped: Vec::new(),
        suspect_hinges: Vec::new(),
        flat_fold_violations: Vec::new(),
        contact_detected: false,
        best_effort: false,
        converged: true,
    }
}

impl DocumentStore {
    /// Applies one editing operation as one change of the work.
    pub fn apply_edit<K: CreaseKernel>(&mut self, kernel: &K, op: EditOp) -> (r: Result<DocumentView, String>)
        requires
            well_formed(old(self)@),
        ensures
            r is Err ==> final(self)@ == old(self)@,
            r matches Err(e) ==> edit_effect(kernel, op, old(self)@.doc, Seq::empty(), Err(e), old(self)@.doc, Seq::empty()),
            r matches Ok(v) ==> exists|d: DocumentModel, w: Seq<Seq<char>>| {
                &&& #[trigger] edit_effect(kernel, op, old(self)@.doc, Seq::empty(), Ok(()), d, w)
                &&& v.doc@ == d
                &&& texts(v.warnings@).subrange(0, w.len() as int) == w
                &&& final(self)@ == with_pose(
                    committed(old(self)@, d, old(self)@.step_creases, kernel.faces_of(d.cp)),
                    if op is ReplaceCreasePattern { None } else { old(self)@.pose_angles },
                )
                &&& shows(kernel, v, final(self)@)
            },
            faces_current(kernel, old(self)@) ==> faces_current(kernel, final(self)@),
            well_formed(final(self)@),
    {
        let is_replace = match &op {
            EditOp::ReplaceCreasePattern { .. } => true,
            _ => false,
        };
        let ghost op_value = op;
        let mut doc = self.doc.clone();
        let mut warnings: Vec<String> = Vec::new();
        proof {
            assert(texts(warnings@) =~= Seq::empty());
        }
        edit_document(kernel, &mut doc, op, &mut warnings)?;
        let ghost w = texts(warnings@);
        let ghost d = doc@;
        let creases = clone_creases(&self.step_creases);
        let view = self.commit(kernel, doc, creases, warnings);
        if is_replace {
            self.pose_angles = None;
        }
        proof {
            assert(edit_effect(kernel, op_value, old(self)@.doc, Seq::empty(), Ok(()), d, w));
        }
        Ok(view)
    }

    /// Applies several editing operations as one change of the work (one gesture that
    /// draws several lines is undone at once). If any operation is refused, none is
    /// applied. Replacing the whole crease pattern drops the warm start.
    pub fn apply_edits<K: CreaseKernel>(&mut self, kernel: &K, ops: Vec<EditOp>) -> (r: Result<DocumentView, String>)
        requires
            well_formed(old(self)@),
        ensures
            ops@.len() == 0 ==> (r matches Err(e) && e@ == msg_no_edit()),
            r is Err ==> final(self)@ == old(self)@,
            r matches Err(e) ==> ops@.len() == 0 || exists|
                ds: Seq<DocumentModel>,
                ws: Seq<Seq<Seq<char>>>,
                k: int,
            | {
                &&& #[trigger] edit_run(kernel, ops@, ds, ws, k)
                &&& k < ops@.len()
                &&& ds[0] == old(self)@.doc
                &&& ws[0] == Seq::<Seq<char>>::empty()
                &&& edit_effect(kernel, ops@[k], ds[k], ws[k], Err(e), ds[k], ws[k])
            },
            r matches Ok(v) ==> exists|ds: Seq<DocumentModel>, ws: Seq<Seq<Seq<char>>>| {
                &&& #[trigger] edit_run(kernel, ops@, ds, ws, ops@.len() as int)
                &&& ds[0] == old(self)@.doc
                &&& ws[0] == Seq::<Seq<char>>::empty()
                &&& v.doc@ == ds.last()
                &&& texts(v.warnings@).subrange(0, ws.last().len() as int) == ws.last()
                &&& final(self)@ == with_pose(
                    committed(old(self)@, ds.last(), old(self)@.step_creases, kernel.faces_of(ds.last().cp)),
                    if replaces_crease_pattern(ops@) { None } else { old(self)@.pose_angles },
                )
                &&& shows(kernel, v, final(self)@)
            },
            faces_current(kernel, old(self)@) ==> faces_current(kernel, final(self)@),
            well_formed(final(self)@),
    {
        if ops.len() == 0 {
            return Err(String::from_str("編集する内容がありません"));
        }
        let ghost all = ops@;
        let mut replaced_cp = false;
        let mut j: usize = 0;
        while j < ops.len()
            invariant
                j <= ops.len(),
                all == ops@,
                replaced_cp == exists|i: int| 0 <= i < j && ops@[i] is ReplaceCreasePattern,
            decreases ops.len() - j,
        {
            match &ops[j] {
                EditOp::ReplaceCreasePattern { .. } => {
                    replaced_cp = true;
                },
                _ => {},
            }
            j = j + 1;
        }
        let mut doc = self.doc.clone();
        let mut warnings: Vec<String> = Vec::new();
        let ghost mut ds: Seq<DocumentModel> = seq![doc@];
        let ghost mut ws: Seq<Seq<Seq<char>>> = seq![Seq::<Seq<char>>::empty()];
        proof {
            assert(texts(warnings@) =~= Seq::<Seq<char>>::empty());
        }
        let total = ops.len();
        let mut rest = ops;
        let mut i: usize = 0;
        while rest.len() > 0
            invariant
                i <= all.len(),
                all.len() > 0,
                all.len() == total,
                all == ops@,
                rest@ == all.subrange(i as int, all.len() as int),
                edit_run(kernel, all, ds, ws, i as int),
                ds[0] == self@.doc,
                ws[0] == Seq::<Seq<char>>::empty(),
                doc@ == ds.last(),
                texts(warnings@) == ws.last(),
                well_formed(self@),
                self@ == old(self)@,
            decreases rest.len(),
        {
            proof {
                assert(rest@.len() == all.len() - i);
            }
            let op = rest.remove(0);
            proof {
                assert(op == all[i as int]);
            }
            let ghost d0 = doc@;
            let ghost w0 = texts(warnings@);
            let outcome = edit_document(kernel, &mut doc, op, &mut warnings);
            match outcome {
                Err(e) => {
                    proof {
                        assert(edit_effect(kernel, all[i as int], ds[i as int], ws[i as int], Err(e), ds[i as int], ws[i as int]));
                        assert(edit_run(kernel, all, ds, ws, i as int));
                    }
                    return Err(e);
                },
                Ok(()) => {},
            }
            proof {
                let ds2 = ds.push(doc@);
                let ws2 = ws.push(texts(warnings@));
                assert forall|k: int| 0 <= k < i + 1 implies #[trigger] edit_effect(
                    kernel,
                    all[k],
                    ds2[k],
                    ws2[k],
                    Ok(()),
                    ds2[k + 1],
                    ws2[k + 1],
                ) by {
                    if k < i {
                        assert(edit_effect(kernel, all[k], ds[k], ws[k], Ok(()), ds[k + 1], ws[k + 1]));
                    }
                }
                ds = ds2;
                ws = ws2;
            }
            i = i + 1;
            proof {
                assert(rest@ =~= all.subrange(i as int, all.len() as int));
            }
        }
        proof {
            assert(i == all.len());
        }
        let creases = clone_creases(&self.step_creases);
        let view = self.commit(kernel, doc, creases, warnings);
        if replaced_cp {
            self.pose_angles = None;
        }
        proof {
            assert(edit_run(kernel, all, ds, ws, all.len() as int));
        }
        Ok(view)
    }

    /// Puts in a proposed crease pattern together with its fold sequence as one change
    /// of the work (a single undo takes both back); the crease history starts empty and
    /// the warm start is dropped. Refused, with nothing changed, when the kernel finds
    /// no face in the crease pattern or when two steps share an identifier, as
    /// [`DocumentStore::apply_proposal_with_faces`] decides on the faces found.
    pub fn apply_proposal<K: CreaseKernel>(
        &mut self,
        kernel: &K,
        cp: CreasePattern,
        steps: Vec<FoldStep>,
    ) -> (r: Result<DocumentView, String>)
        requires
            well_formed(old(self)@),
        ensures
            r is Err ==> final(self)@ == old(self)@,
            kernel.faces_of(cp@).len() == 0 ==> (r matches Err(e) && e@ == msg_no_faces()),
            kernel.faces_of(cp@).len() > 0 && has_duplicate_ids(steps_model(steps@)) ==> (r matches Err(
                e,
            ) && e@ == msg_duplicate_step()),
            kernel.faces_of(cp@).len() > 0 && !has_duplicate_ids(steps_model(steps@)) ==> (r matches Ok(
                v,
            ) && final(self)@ == with_pose(
                committed(
                    old(self)@,
                    DocumentModel { cp: cp@, sequence: steps_model(steps@), ..old(self)@.doc },
                    Seq::empty(),
                    kernel.faces_of(cp@),
                ),
                None,
            ) && shows(kernel, v, final(self)@)),
            faces_current(kernel, old(self)@) ==> faces_current(kernel, final(self)@),
            well_formed(final(self)@),
    {
        let faces = kernel.extract_faces(&cp);
        self.apply_proposal_with_faces(kernel, cp, steps, &faces)
    }

    /// [`DocumentStore::apply_proposal`] once the kernel has found the faces `faces` of
    /// the proposed crease pattern: refused when it found none, then when two steps share
    /// an identifier; otherwise the pattern and the steps go in as one change.
    pub fn apply_proposal_with_faces<K: CreaseKernel>(
        &mut self,
        kernel: &K,
        cp: CreasePattern,
        steps: Vec<FoldStep>,
        faces: &Vec<Face>,
    ) -> (r: Result<DocumentView, String>)
        requires
            well_formed(old(self)@),
        ensures
            r is Err ==> final(self)@ == old(self)@,
            faces@.len() == 0 ==> (r matches Err(e) && e@ == msg_no_faces()),
            faces@.len() > 0 && has_duplicate_ids(steps_model(steps@)) ==> (r matches Err(e) && e@
                == msg_duplicate_step()),
            faces@.len() > 0 && !has_duplicate_ids(steps_model(steps@)) ==> (r matches Ok(v)
                && v.doc@ == final(self)@.doc && final(self)@ == with_pose(
                committed(
                    old(self)@,
                    DocumentModel { cp: cp@, sequence: steps_model(steps@), ..old(self)@.doc },
                    Seq::empty(),
                    kernel.faces_of(cp@),
                ),
                None,
            ) && shows(kernel, v, final(self)@)),
            faces_current(kernel, old(self)@) ==> faces_current(kernel, final(self)@),
            well_formed(final(self)@),
    {
        if faces.len() == 0 {
            return Err(String::from_str("この展開図では紙の面が作れませんでした"));
        }
        if duplicate_ids(&steps) {
            return Err(duplicate_step_message());
        }
        let mut doc = self.doc.clone();
        doc.cp = cp;
        doc.sequence = steps;
        let none: Vec<StepCreases> = Vec::new();
        proof {
            assert(creases_model(none@) =~= Seq::empty());
        }
        let view = self.commit(kernel, doc, none, Vec::new());
        self.pose_angles = None;
        Ok(view)
    }

    /// Applies a fold-sequence operation as one change of the work. A move derives the
    /// view of the moved work with the replay of its steps before anything is committed
    /// (and gives that view also when the step stays where it is); the other operations
    /// give the view without a replay.
    #[verifier::rlimit(40)]
    #[verifier::spinoff_prover]
    pub fn apply_seq<K: ReplayKernel>(
        &mut self,
        kernel: &K,
        op: SeqOp,
        penetration: &String,
        fold_penetration: &String,
    ) -> (r: Result<ReplayedView<K::Geometry, K::Details>, String>)
        requires
            well_formed(old(self)@),
        ensures
            seq_effect(op, old(self)@, plain_view(r), final(self)@),
            r matches Ok(v) ==> (v.frame is Some <==> op is MoveStep),
            r matches Ok(v) ==> shows(kernel, v.view, final(self)@),
            faces_current(kernel, old(self)@) ==> faces_current(kernel, final(self)@),
            well_formed(final(self)@),
    {
        let ghost s = self@;
        match op {
            SeqOp::PushStep { step } => {
                let ghost sm = step@;
                let mut doc = self.doc.clone();
                let mut creases = clone_creases(&self.step_creases);
                push_step(&mut doc, &mut creases, step);
                let view = self.commit(kernel, doc, creases, Vec::new());
                Ok(unreplayed(view))
            },
            SeqOp::InsertStep { index, step } => {
                let mut doc = self.doc.clone();
                let mut creases = clone_creases(&self.step_creases);
                insert_step(&mut doc, &mut creases, index, step)?;
                let view = self.commit(kernel, doc, creases, Vec::new());
                Ok(unreplayed(view))
            },
            SeqOp::RemoveStep { id } => {
                let mut doc = self.doc.clone();
                remove_step(&mut doc, id)?;
                let creases = clone_creases(&self.step_creases);
                let view = self.commit(kernel, doc, creases, Vec::new());
                Ok(unreplayed(view))
            },
            SeqOp::UpdateStep { step } => {
                let mut doc = self.doc.clone();
                update_step(&mut doc, step)?;
                let creases = clone_creases(&self.step_creases);
                let view = self.commit(kernel, doc, creases, Vec::new());
                Ok(unreplayed(view))
            },
            SeqOp::MoveStep { id, to_index } => {
                let mut doc = self.doc.clone();
                let from = move_step_in_sequence(&mut doc, id, to_index)?;
                let creases = clone_creases(&self.step_creases);
                let view = build_view(kernel, &doc, &creases, Vec::new());
                let replayed = attach_replay(kernel, view, penetration, fold_penetration);
                if self.fail_move_step_derivation_if_requested() {
                    return Err(String::from_str("MoveStepの導出に失敗しました"));
                }
                if from == to_index {
                    proof {
                        crate::steps::lemma_moved_in_place(s.doc.sequence, from as int);
                    }
                    return Ok(replayed);
                }
                let ReplayedView {
                    view,
                    frame,
                    details,
                    targets,
                    angles,
                    skipped,
                    suspect_hinges,
                    flat_fold_violations,
                    contact_detected,
                    best_effort,
                    converged,
                } = replayed;
                let view = self.commit_prebuilt(doc, creases, view);
                Ok(ReplayedView {
                    view,
                    frame,
                    details,
                    targets,
                    angles,
                    skipped,
                    suspect_hinges,
                    flat_fold_violations,
                    contact_detected,
                    best_effort,
                    converged,
                })
            },
        }
    }

    /// A preview of a fold after the first `up_to` steps: the view of the current work
    /// with `warnings` and the verdict `info` on the fold line; nothing in the store
    /// changes. An insertion point past the last step is refused.
    pub fn preview_fold<K: CreaseKernel>(
        &self,
        kernel: &K,
        up_to: usize,
        info: Option<FoldTargetInfo>,
        warnings: Vec<String>,
    ) -> (r: Result<DocumentView, String>)
        ensures
            up_to > self@.doc.sequence.len() ==> (r matches Err(e) && e@ == msg_insert_out_of_range(
                up_to as nat,
            )),
            up_to <= self@.doc.sequence.len() ==> (r matches Ok(v) && v.doc@ == self@.doc
                && v.fold_target_info == info && texts(v.warnings@) == texts(warnings@)
                + kernel.validation_of(self@.doc.cp) && shows(kernel, v, self@)
                && texts(v.warnings@).subrange(0, warnings@.len() as int) == texts(warnings@)),
    {
        check_insert_point(&self.doc, up_to)?;
        let mut view = build_view(kernel, &self.doc, &self.step_creases, warnings);
        view.fold_target_info = info;
        Ok(view)
    }

    /// Reports a fold that changed nothing: the work stays as it is (only the commit is
    /// counted) and the warnings are the notice about the insertion point followed by
    /// `trailing`, without the penetration warnings when detection is off. An insertion
    /// point past the last step is refused.
    pub fn report_unchanged<K: CreaseKernel>(
        &mut self,
        kernel: &K,
        up_to: usize,
        trailing: Vec<String>,
        penetration: &String,
        fold_penetration: &String,
    ) -> (r: Result<DocumentView, String>)
        requires
            well_formed(old(self)@),
        ensures
            up_to > old(self)@.doc.sequence.len() ==> (r matches Err(e) && e@
                == msg_insert_out_of_range(up_to as nat) && final(self)@ == old(self)@),
            up_to <= old(self)@.doc.sequence.len() ==> (r matches Ok(v) && v.doc@ == old(self)@.doc
                && final(self)@ == committed(
                old(self)@,
                old(self)@.doc,
                old(self)@.step_creases,
                kernel.faces_of(old(self)@.doc.cp),
            ) && shows(kernel, v, final(self)@) && fold_warnings(
                texts(v.warnings@),
                Seq::empty(),
                texts(trailing@),
                old(self)@.doc,
                up_to as nat,
                penetration@,
                fold_penetration@,
            )),
            faces_current(kernel, old(self)@) ==> faces_current(kernel, final(self)@),
            well_formed(final(self)@),
    {
        let notices = check_insert_point(&self.doc, up_to)?;
        proof {
            assert(texts(notices@) =~= insert_notices(up_to as nat, self@.doc.sequence.len()));
        }
        let mut warnings = notices;
        append_messages(&mut warnings, &trailing);
        let detect = self.doc.display.penetration_prevention_enabled;
        filter_penetration_warnings(&mut warnings, detect, penetration, fold_penetration);
        let ghost shown = texts(warnings@);
        let doc = self.doc.clone();
        let creases = clone_creases(&self.step_creases);
        let view = self.commit(kernel, doc, creases, warnings);
        proof {
            assert(Seq::<Seq<char>>::empty() + insert_notices(up_to as nat, old(self)@.doc.sequence.len())
                + texts(trailing@) =~= insert_notices(up_to as nat, old(self)@.doc.sequence.len())
                + texts(trailing@));
        }
        Ok(view)
    }

    /// The candidate work after a fold computed on the crease pattern is recorded after
    /// the first `up_to` steps, together with the notice list of the insertion point: the
    /// optional pose step goes first with a fresh identifier (recorded as the editor's
    /// steps are), then `step` with the next fresh identifier; the crease pattern becomes
    /// `cp`, the pattern after the fold, and the lines the fold newly added are recorded
    /// for the step. Nothing in the store changes. An insertion point past the last step
    /// is refused.
    pub fn fold_candidate(
        &self,
        up_to: usize,
        pose_step: Option<FoldStep>,
        step: FoldStep,
        cp: CreasePattern,
        added_edges: &Vec<EdgeId>,
    ) -> (r: Result<(Document, Vec<StepCreases>, Vec<String>), String>)
        ensures
            up_to > self@.doc.sequence.len() ==> (r matches Err(e) && e@ == msg_insert_out_of_range(
                up_to as nat,
            )),
            up_to <= self@.doc.sequence.len() ==> (r matches Ok(c) && ({
                let expected = fold_recorded(
                    self@.doc,
                    self@.step_creases,
                    up_to as int,
                    match pose_step {
                        Some(p) => Some(p@),
                        None => None,
                    },
                    step@,
                    cp@,
                    added_edges@,
                );
                &&& c.0@ == expected.0
                &&& creases_model(c.1@) == expected.1
                &&& texts(c.2@) == insert_notices(up_to as nat, self@.doc.sequence.len())
            })),
    {
        let notices = check_insert_point(&self.doc, up_to)?;
        proof {
            assert(texts(notices@) =~= insert_notices(up_to as nat, self@.doc.sequence.len()));
        }
        let mut doc = self.doc.clone();
        let mut creases = clone_creases(&self.step_creases);
        let lines = added_crease_lines(&doc.cp, &cp, added_edges);
        let mut at = up_to;
        match pose_step {
            Some(p) => {
                let mut p = p;
                p.id = next_step_id(&doc, &creases);
                record_frontend_step(&mut creases, &p);
                let ghost before_seq = doc.sequence@;
                let ghost pm = p@;
                doc.sequence.insert(up_to, p);
                proof {
                    assert(steps_model(doc.sequence@) =~= steps_model(before_seq).insert(
                        up_to as int,
                        pm,
                    ));
                }
                let n = doc.sequence.len();
                assert(up_to < n);
                at = up_to + 1;
            },
            None => {},
        }
        let mut step = step;
        step.id = next_step_id(&doc, &creases);
        record_step_creases(&mut creases, step.id, lines);
        doc.cp = cp;
        let ghost before_seq = doc.sequence@;
        let ghost sm = step@;
        doc.sequence.insert(at, step);
        proof {
            assert(steps_model(doc.sequence@) =~= steps_model(before_seq).insert(at as int, sm));
        }
        Ok((doc, creases, notices))
    }

    /// Records a fold computed on the crease pattern as one change of the work, as
    /// [`DocumentStore::fold_candidate`] builds it. The warnings are `leading`, then the
    /// notice about replaying later steps when the fold is inserted before them, then
    /// `trailing`; with penetration detection off, the penetration warnings `penetration`
    /// and `fold_penetration` are left out. An insertion point past the last step is
    /// refused and nothing changes.
    pub fn record_fold<K: CreaseKernel>(
        &mut self,
        kernel: &K,
        up_to: usize,
        pose_step: Option<FoldStep>,
        step: FoldStep,
        cp: CreasePattern,
        added_edges: &Vec<EdgeId>,
        leading: Vec<String>,
        trailing: Vec<String>,
        penetration: &String,
        fold_penetration: &String,
    ) -> (r: Result<DocumentView, String>)
        requires
            well_formed(old(self)@),
        ensures
            up_to > old(self)@.doc.sequence.len() ==> (r matches Err(e) && e@
                == msg_insert_out_of_range(up_to as nat) && final(self)@ == old(self)@),
            up_to <= old(self)@.doc.sequence.len() ==> (r matches Ok(v) && ({
                let s = old(self)@;
                let expected = fold_recorded(
                    s.doc,
                    s.step_creases,
                    up_to as int,
                    match pose_step {
                        Some(p) => Some(p@),
                        None => None,
                    },
                    step@,
                    cp@,
                    added_edges@,
                );
                let all = texts(leading@) + insert_notices(up_to as nat, s.doc.sequence.len())
                    + texts(trailing@);
                let shown = if s.doc.display.penetration_prevention_enabled {
                    all
                } else {
                    without_messages(all, penetration@, fold_penetration@)
                };
                &&& v.doc@ == expected.0
                &&& texts(v.warnings@).subrange(0, shown.len() as int) == shown
                &&& fold_warnings(
                    texts(v.warnings@),
                    texts(leading@),
                    texts(trailing@),
                    s.doc,
                    up_to as nat,
                    penetration@,
                    fold_penetration@,
                )
                &&& final(self)@ == committed(s, expected.0, expected.1, kernel.faces_of(expected.0.cp))
                &&& shows(kernel, v, final(self)@)
            })),
            faces_current(kernel, old(self)@) ==> faces_current(kernel, final(self)@),
            well_formed(final(self)@),
    {
        let (doc, creases, notices) = self.fold_candidate(up_to, pose_step, step, cp, added_edges)?;
        let mut warnings = leading;
        append_messages(&mut warnings, &notices);
        append_messages(&mut warnings, &trailing);
        let detect = doc.display.penetration_prevention_enabled;
        filter_penetration_warnings(&mut warnings, detect, penetration, fold_penetration);
        let view = self.commit(kernel, doc, creases, warnings);
        Ok(view)
    }
}

/// Appends copies of the messages of `more` to `list`.
pub fn append_messages(list: &mut Vec<String>, more: &Vec<String>)
    ensures
        texts(final(list)@) == texts(old(list)@) + texts(more@),
{
    let ghost first = texts(list@);
    let mut k: usize = 0;
    while k < more.len()
        invariant
            k <= more.len(),
            texts(list@) == first + texts(more@).subrange(0, k as int),
        decreases more.len() - k,
    {
        let ghost prev = list@;
        list.push(more[k].clone());
        proof {
            assert(texts(list@) =~= texts(prev).push(more@[k as int]@));
            assert(texts(more@).subrange(0, k + 1) =~= texts(more@).subrange(0, k as int).push(
                more@[k as int]@,
            ));
        }
        k = k + 1;
    }
    proof {
        assert(texts(more@).subrange(0, k as int) =~= texts(more@));
    }
}

/// The step `step` carrying the identifier `id`.
pub open spec fn with_id(step: FoldStepModel, id: StepId) -> FoldStepModel {
    FoldStepModel { id: id, ..step }
}

/// The identifier the next new step of a work gets: fresh among its steps and crease
/// records.
pub open spec fn next_id(sequence: Seq<FoldStepModel>, creases: Seq<StepCreasesModel>) -> StepId {
    fresh_step_id(step_ids(sequence) + crease_step_ids(creases))
}

/// The document and crease history after a fold is recorded after the first `up_to`
/// steps: the optional pose step first, with a fresh identifier and recorded as the
/// editor's steps are, then `step` with the next fresh identifier; the crease pattern
/// becomes `cp` and the lines that the fold added to the pattern are recorded for `step`.
pub open spec fn fold_recorded(
    doc: DocumentModel,
    creases: Seq<StepCreasesModel>,
    up_to: int,
    pose: Option<FoldStepModel>,
    step: FoldStepModel,
    cp: crate::model::CreasePatternModel,
    added: Seq<EdgeId>,
) -> (DocumentModel, Seq<StepCreasesModel>) {
    let (sequence, history, at) = match pose {
        Some(p) => {
            let placed = with_id(p, next_id(doc.sequence, creases));
            (doc.sequence.insert(up_to, placed), recorded_frontend(creases, placed), up_to + 1)
        },
        None => (doc.sequence, creases, up_to),
    };
    let id = next_id(sequence, history);
    (
        DocumentModel { cp: cp, sequence: sequence.insert(at, with_id(step, id)), ..doc },
        recorded(history, id, new_crease_lines(doc.cp, cp, added)),
    )
}

} // verus!

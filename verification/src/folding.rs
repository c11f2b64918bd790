//! Folds computed by the kernel and recorded as steps: the order in which a fold request
//! is checked, which of the kernel's folds is asked for (reproducing a pose first,
//! folding in the flat state, or folding the 3D shape), and what is recorded.
//!
//! Every geometric computation is the kernel's. Each is a function of its arguments
//! alone, named by a spec function of the kernel trait; the contracts say which of them
//! the store asks for, with what, and what it records of the answers.
use vstd::prelude::*;
use vstd::string::*;

use crate::fold_target::{
    fold_target_faces, fold_target_info_from_analysis, target_faces_verdict, target_verdict,
    unavailable_fold_target_info, unavailable_info, FoldTargetInfo, FoldTargetInfoModel,
    FoldTargetStatus, PleatAnalysis,
};
use crate::kernel::CreaseKernel;
use crate::model::{
    faces_model, CreasePattern, CreasePatternModel, Document, DocumentModel, EdgeId, Face, FaceId,
    FaceModel, FoldStep, FoldStepModel, TechniqueKind,
};
use crate::requests::{
    check_fold_through_request, check_pose_and_grip, check_technique_request, fold_request_verdict,
    msg_count_and_grip, msg_count_and_layers, msg_pose_and_grip, msg_technique_unavailable,
    technique_available, technique_request_verdict,
};
use crate::steps::{check_insert_point, msg_insert_out_of_range};
use crate::edits::texts;
use crate::replay::shown;
use crate::store::{
    committed, faces_current, fold_recorded, fold_warnings, shows, well_formed,
    DocumentStore, DocumentView, StoreModel,
};

verus! {

/// A fold the kernel computed on a copy of the crease pattern: the new step, the
/// pattern after the fold, the edges the fold drew and the kernel's warnings.
#[derive(Debug)]
pub struct KernelFold {
    pub step: FoldStep,
    pub cp: CreasePattern,
    pub added_edges: Vec<EdgeId>,
    pub warnings: Vec<String>,
}

/// A fold of the 3D shape: as [`KernelFold`], but the kernel may find no step to add.
#[derive(Debug)]
pub struct SpatialFold {
    pub step: Option<FoldStep>,
    pub cp: CreasePattern,
    pub added_edges: Vec<EdgeId>,
    pub warnings: Vec<String>,
}

/// The faces of an optional list, as a sequence.
pub open spec fn opt_seq(o: Option<Vec<FaceId>>) -> Option<Seq<FaceId>> {
    match o {
        Some(v) => Some(v@),
        None => None,
    }
}

/// The kernel's folding operations. Each result is named by a spec function, and each
/// method returns exactly the named value.
pub trait FoldKernel: CreaseKernel {
    /// A flat folded state of the work after some steps.
    type State;
    /// The work replayed in 3D.
    type Frame;
    /// Where and how to fold: the fold line, the side that stays, the direction and the
    /// alignment the new step keeps.
    type Line;
    /// A folded shape to reproduce before folding.
    type Pose;
    /// A grip point picked in the 3D view.
    type Grip;
    /// The kernel's analysis of the pleats under a fold line.
    type Analysis;
    /// A proposal of folding through, shown by a preview.
    type Proposal;
    /// The parameters of a technique.
    type TechniqueInput;
    /// The parameters of a flat motion of layers.
    type MotionInput;

    /// The flat state after the first `up_to` steps, with the warnings of reaching it.
    closed spec fn flat_state_of(&self, doc: DocumentModel, faces: Seq<FaceModel>, up_to: nat) -> Result<
        (Self::State, Vec<String>),
        String,
    > {
        vstd::pervasive::arbitrary()
    }

    /// The flat state of a pose to reproduce, its pose step and the warnings of reaching it.
    closed spec fn flat_pose_of(
        &self,
        doc: DocumentModel,
        faces: Seq<FaceModel>,
        up_to: nat,
        pose: Self::Pose,
    ) -> Result<(Self::State, FoldStep, Vec<String>), String> {
        vstd::pervasive::arbitrary()
    }

    /// The fold through the layers of a flat state along a line.
    closed spec fn fold_through_of(
        &self,
        cp: CreasePatternModel,
        faces: Seq<FaceModel>,
        state: Self::State,
        line: Self::Line,
        target_layers: Option<Seq<FaceId>>,
        accept_additional_crease: bool,
    ) -> Result<KernelFold, String> {
        vstd::pervasive::arbitrary()
    }

    /// The proposal of folding through the layers of a flat state along a line.
    closed spec fn proposal_of(
        &self,
        cp: CreasePatternModel,
        faces: Seq<FaceModel>,
        state: Self::State,
        line: Self::Line,
        target_layers: Option<Seq<FaceId>>,
    ) -> Result<Option<Self::Proposal>, String> {
        vstd::pervasive::arbitrary()
    }

    /// The work after the first `up_to` steps, replayed in 3D.
    closed spec fn frame_of(&self, doc: DocumentModel, faces: Seq<FaceModel>, up_to: nat) -> Self::Frame {
        vstd::pervasive::arbitrary()
    }

    /// Whether a replayed shape leaves the plane.
    closed spec fn nonflat(&self, frame: Self::Frame) -> bool {
        vstd::pervasive::arbitrary()
    }

    /// The fold of a 3D shape along a line.
    closed spec fn spatial_fold_of(
        &self,
        doc: DocumentModel,
        faces: Seq<FaceModel>,
        up_to: nat,
        frame: Self::Frame,
        grip: Option<Self::Grip>,
        line: Self::Line,
        target_layers: Option<Seq<FaceId>>,
    ) -> SpatialFold {
        vstd::pervasive::arbitrary()
    }

    /// The analysis of the pleats under a line, what it found and the warnings of reaching
    /// the analysed state; nothing when the line cannot be analysed.
    closed spec fn analysis_of(
        &self,
        doc: DocumentModel,
        faces: Seq<FaceModel>,
        up_to: nat,
        line: Self::Line,
        pose: Option<Self::Pose>,
    ) -> Option<(Self::Analysis, PleatAnalysis, Vec<String>)> {
        vstd::pervasive::arbitrary()
    }

    /// The faces to fold for `count` pleats, if the analysis finds them.
    closed spec fn target_faces_of(&self, analysis: Self::Analysis, count: usize) -> Option<Seq<FaceId>> {
        vstd::pervasive::arbitrary()
    }

    /// A technique applied to the layers of a flat state.
    closed spec fn technique_of(
        &self,
        kind: TechniqueKind,
        cp: CreasePatternModel,
        faces: Seq<FaceModel>,
        state: Self::State,
        input: Self::TechniqueInput,
    ) -> Result<KernelFold, String> {
        vstd::pervasive::arbitrary()
    }

    /// A flat motion of the layers of a flat state.
    closed spec fn flat_motion_of(
        &self,
        cp: CreasePatternModel,
        faces: Seq<FaceModel>,
        state: Self::State,
        input: Self::MotionInput,
    ) -> Result<KernelFold, String> {
        vstd::pervasive::arbitrary()
    }

    /// The flat state after the first `up_to` steps, with the warnings of reaching it.
    fn flat_state_at(&self, doc: &Document, faces: &Vec<Face>, up_to: usize) -> (r: Result<
        (Self::State, Vec<String>),
        String,
    >)
        ensures
            r == self.flat_state_of(doc@, faces_model(faces@), up_to as nat),
    ;

    /// The flat state of the pose to reproduce after the first `up_to` steps, the pose
    /// step that records it and the warnings of reaching it.
    fn canonical_flat_pose_at(
        &self,
        doc: &Document,
        faces: &Vec<Face>,
        up_to: usize,
        pose: &Self::Pose,
    ) -> (r: Result<(Self::State, FoldStep, Vec<String>), String>)
        ensures
            r == self.flat_pose_of(doc@, faces_model(faces@), up_to as nat, *pose),
    ;

    /// Folds through the layers of `state` along `line`.
    fn fold_through(
        &self,
        cp: &CreasePattern,
        faces: &Vec<Face>,
        state: &Self::State,
        line: &Self::Line,
        target_layers: &Option<Vec<FaceId>>,
        accept_additional_crease: bool,
    ) -> (r: Result<KernelFold, String>)
        ensures
            r == self.fold_through_of(
                cp@,
                faces_model(faces@),
                *state,
                *line,
                opt_seq(*target_layers),
                accept_additional_crease,
            ),
    ;

    /// The proposal of folding through the layers of `state` along `line`, if any.
    fn propose_fold_through(
        &self,
        cp: &CreasePattern,
        faces: &Vec<Face>,
        state: &Self::State,
        line: &Self::Line,
        target_layers: &Option<Vec<FaceId>>,
    ) -> (r: Result<Option<Self::Proposal>, String>)
        ensures
            r == self.proposal_of(cp@, faces_model(faces@), *state, *line, opt_seq(*target_layers)),
    ;

    /// The work after the first `up_to` steps, replayed in 3D.
    fn replay_frame(&self, doc: &Document, faces: &Vec<Face>, up_to: usize) -> (r: Self::Frame)
        ensures
            r == self.frame_of(doc@, faces_model(faces@), up_to as nat),
    ;

    /// Whether the replayed shape leaves the plane.
    fn frame_is_nonflat(&self, frame: &Self::Frame) -> (r: bool)
        ensures
            r == self.nonflat(*frame),
    ;

    /// Folds the 3D shape `frame` along `line`.
    fn fold_from_plane_3d(
        &self,
        doc: &Document,
        faces: &Vec<Face>,
        up_to: usize,
        frame: &Self::Frame,
        grip: &Option<Self::Grip>,
        line: &Self::Line,
        target_layers: &Option<Vec<FaceId>>,
    ) -> (r: SpatialFold)
        ensures
            r == self.spatial_fold_of(
                doc@,
                faces_model(faces@),
                up_to as nat,
                *frame,
                *grip,
                *line,
                opt_seq(*target_layers),
            ),
    ;

    /// The analysis of the pleats under `line` after the first `up_to` steps (of the pose
    /// to reproduce, if any), what it found as plain values, and the warnings of reaching
    /// it; nothing when the line cannot be analysed.
    fn fold_target_analysis(
        &self,
        doc: &Document,
        faces: &Vec<Face>,
        up_to: usize,
        line: &Self::Line,
        pose: &Option<Self::Pose>,
    ) -> (r: Option<(Self::Analysis, PleatAnalysis, Vec<String>)>)
        ensures
            r == self.analysis_of(doc@, faces_model(faces@), up_to as nat, *line, *pose),
    ;

    /// The faces to fold for `count` pleats, if the analysis finds them.
    fn target_faces_for_count(&self, analysis: &Self::Analysis, count: usize) -> (r: Option<
        Vec<FaceId>,
    >)
        ensures
            opt_seq(r) == self.target_faces_of(*analysis, count),
    ;

    /// Applies a technique to the layers of `state`.
    fn technique(
        &self,
        kind: TechniqueKind,
        cp: &CreasePattern,
        faces: &Vec<Face>,
        state: &Self::State,
        input: &Self::TechniqueInput,
    ) -> (r: Result<KernelFold, String>)
        ensures
            r == self.technique_of(kind, cp@, faces_model(faces@), *state, *input),
    ;

    /// Moves layers of `state` flat.
    fn flat_motion(
        &self,
        cp: &CreasePattern,
        faces: &Vec<Face>,
        state: &Self::State,
        input: &Self::MotionInput,
    ) -> (r: Result<KernelFold, String>)
        ensures
            r == self.flat_motion_of(cp@, faces_model(faces@), *state, *input),
    ;
}

/// What the kernel found for a fold line: the verdict, the analysis where the verdict
/// offers pleats, and the warnings of reaching the analysed state.
pub struct FoldTargetLookup<A> {
    pub info: FoldTargetInfo,
    pub analysis: Option<A>,
    pub warnings: Vec<String>,
}

/// Whether each pleat count from one to `n` has target faces in the analysis `a`.
pub open spec fn safe_counts<K: FoldKernel>(kernel: &K, a: K::Analysis, n: nat) -> Seq<bool> {
    Seq::new(n, |i: int| kernel.target_faces_of(a, (i + 1) as usize) is Some)
}

/// The verdict on a fold line from the kernel's analysis `a`, which found `found`.
pub open spec fn analysed_verdict<K: FoldKernel>(
    kernel: &K,
    a: K::Analysis,
    found: PleatAnalysis,
) -> FoldTargetInfoModel {
    target_verdict(
        found.scalar_count,
        found.sections@,
        match found.scalar_count {
            Some(n) => safe_counts(kernel, a, n as nat),
            None => Seq::empty(),
        },
    )
}

/// The verdict on a fold line after the first `up_to` steps (of the pose to reproduce,
/// if any): unavailable where the kernel cannot analyse the line.
pub open spec fn verdict_at<K: FoldKernel>(
    kernel: &K,
    doc: DocumentModel,
    faces: Seq<FaceModel>,
    up_to: nat,
    line: K::Line,
    pose: Option<K::Pose>,
) -> FoldTargetInfoModel {
    match kernel.analysis_of(doc, faces, up_to, line, pose) {
        None => unavailable_info(),
        Some(t) => analysed_verdict(kernel, t.0, t.1),
    }
}

/// The faces to fold for `count` pleats under a line, or the reason they cannot be had.
pub open spec fn faces_for_count<K: FoldKernel>(
    kernel: &K,
    doc: DocumentModel,
    faces: Seq<FaceModel>,
    up_to: nat,
    line: K::Line,
    pose: Option<K::Pose>,
    count: usize,
) -> Result<Seq<FaceId>, Seq<char>> {
    let info = verdict_at(kernel, doc, faces, up_to, line, pose);
    let found = match kernel.analysis_of(doc, faces, up_to, line, pose) {
        Some(t) => if info.status != FoldTargetStatus::Unavailable {
            kernel.target_faces_of(t.0, count)
        } else {
            None
        },
        None => None,
    };
    target_faces_verdict(info, found)
}

/// The verdict on a fold line from the kernel's analysis: unavailable when there is no
/// analysis, and otherwise decided from what it found and from which counts have target
/// faces. The analysis is kept only where the verdict is not `Unavailable`.
pub fn fold_target_info_at<K: FoldKernel>(
    kernel: &K,
    doc: &Document,
    faces: &Vec<Face>,
    up_to: usize,
    line: &K::Line,
    pose: &Option<K::Pose>,
) -> (r: FoldTargetLookup<K::Analysis>)
    ensures
        r.info@ == verdict_at(kernel, doc@, faces_model(faces@), up_to as nat, *line, *pose),
        match kernel.analysis_of(doc@, faces_model(faces@), up_to as nat, *line, *pose) {
            None => r.analysis is None && r.warnings@.len() == 0,
            Some(t) => r.warnings == t.2 && r.analysis == (if r.info.status
                != FoldTargetStatus::Unavailable {
                Some(t.0)
            } else {
                None
            }),
        },
        r.analysis is Some ==> r.info.status != FoldTargetStatus::Unavailable,
{
    match kernel.fold_target_analysis(doc, faces, up_to, line, pose) {
        None => FoldTargetLookup {
            info: unavailable_fold_target_info(),
            analysis: None,
            warnings: Vec::new(),
        },
        Some((analysis, found, warnings)) => {
            let mut safe: Vec<bool> = Vec::new();
            match found.scalar_count {
                Some(n) => {
                    let mut c: usize = 0;
                    while c < n
                        invariant
                            c <= n,
                            safe@ == safe_counts(kernel, analysis, c as nat),
                        decreases n - c,
                    {
                        let ok = kernel.target_faces_for_count(&analysis, c + 1).is_some();
                        safe.push(ok);
                        proof {
                            assert(safe@ =~= safe_counts(kernel, analysis, (c + 1) as nat));
                        }
                        c += 1;
                    }
                },
                None => {
                    proof {
                        assert(safe@ =~= Seq::<bool>::empty());
                    }
                },
            }
            let info = fold_target_info_from_analysis(&found, &safe);
            let keep = match info.status {
                FoldTargetStatus::Unavailable => false,
                _ => true,
            };
            FoldTargetLookup {
                info,
                analysis: if keep {
                    Some(analysis)
                } else {
                    None
                },
                warnings,
            }
        },
    }
}

/// A fold the store records: the optional pose step, the step, the crease pattern after
/// the fold, the edges the fold drew, and the warnings of reaching the folded state and of
/// the fold.
pub struct FoldRecord {
    pub pose: Option<FoldStepModel>,
    pub step: FoldStepModel,
    pub cp: CreasePatternModel,
    pub added: Seq<EdgeId>,
    pub leading: Seq<Seq<char>>,
    pub trailing: Seq<Seq<char>>,
}

/// What a fold ends in: a recorded fold, or a fold that changed nothing, with its warnings.
pub enum FoldOutcome {
    Recorded(FoldRecord),
    Unchanged(Seq<Seq<char>>),
}

/// A fold of the kernel, recorded after the optional pose step with the warnings
/// `leading` of reaching the folded state; the kernel's refusal otherwise.
pub open spec fn folded(
    r: Result<KernelFold, String>,
    pose: Option<FoldStepModel>,
    leading: Seq<Seq<char>>,
) -> Result<FoldOutcome, Seq<char>> {
    match r {
        Ok(f) => Ok(
            FoldOutcome::Recorded(
                FoldRecord {
                    pose,
                    step: f.step@,
                    cp: f.cp@,
                    added: f.added_edges@,
                    leading,
                    trailing: texts(f.warnings@),
                },
            ),
        ),
        Err(e) => Err(e@),
    }
}

/// A fold of the 3D shape: recorded where the kernel found a step, otherwise a fold that
/// changed nothing.
pub open spec fn spatial_outcome(f: SpatialFold) -> FoldOutcome {
    match f.step {
        Some(st) => FoldOutcome::Recorded(
            FoldRecord {
                pose: None,
                step: st@,
                cp: f.cp@,
                added: f.added_edges@,
                leading: Seq::empty(),
                trailing: texts(f.warnings@),
            },
        ),
        None => FoldOutcome::Unchanged(texts(f.warnings@)),
    }
}

/// Which fold the kernel is asked for once a fold-through request is accepted, and what
/// comes of it: with a pose, the fold on the pose's flat state; with a grip point on a
/// shape that leaves the plane, the fold of the 3D shape; otherwise the fold on the flat
/// state, falling back to the 3D shape when there is no flat state but the shape leaves
/// the plane.
pub open spec fn fold_through_outcome<K: FoldKernel>(
    kernel: &K,
    s: StoreModel,
    up_to: nat,
    line: K::Line,
    layers: Option<Seq<FaceId>>,
    accept: bool,
    pose: Option<K::Pose>,
    grip: Option<K::Grip>,
) -> Result<FoldOutcome, Seq<char>> {
    match pose {
        Some(p) => match kernel.flat_pose_of(s.doc, s.faces, up_to, p) {
            Err(e) => Err(e@),
            Ok(t) => folded(
                kernel.fold_through_of(s.doc.cp, s.faces, t.0, line, layers, accept),
                Some(t.1@),
                texts(t.2@),
            ),
        },
        None => {
            let frame = kernel.frame_of(s.doc, s.faces, up_to);
            if grip is Some && kernel.nonflat(frame) {
                Ok(spatial_outcome(kernel.spatial_fold_of(s.doc, s.faces, up_to, frame, grip, line, layers)))
            } else {
                match kernel.flat_state_of(s.doc, s.faces, up_to) {
                    Ok(t) => folded(
                        kernel.fold_through_of(s.doc.cp, s.faces, t.0, line, layers, accept),
                        None,
                        texts(t.1@),
                    ),
                    Err(e) => if kernel.nonflat(frame) {
                        Ok(
                            spatial_outcome(
                                kernel.spatial_fold_of(s.doc, s.faces, up_to, frame, grip, line, layers),
                            ),
                        )
                    } else {
                        Err(e@)
                    },
                }
            }
        },
    }
}

/// The target layers of a fold-through request once a pleat count is turned into the
/// faces it folds.
pub open spec fn resolved_layers<K: FoldKernel>(
    kernel: &K,
    s: StoreModel,
    up_to: nat,
    line: K::Line,
    layers: Option<Seq<FaceId>>,
    count: Option<usize>,
    pose: Option<K::Pose>,
) -> Result<Option<Seq<FaceId>>, Seq<char>> {
    match count {
        Some(c) => match faces_for_count(kernel, s.doc, s.faces, up_to, line, pose, c) {
            Ok(f) => Ok(Some(f)),
            Err(m) => Err(m),
        },
        None => Ok(layers),
    }
}

/// What a fold-through request comes to: the request is checked first, the pleat count is
/// turned into faces, a pose cannot come with a grip point, and then the fold of
/// [`fold_through_outcome`].
pub open spec fn fold_through_result<K: FoldKernel>(
    kernel: &K,
    s: StoreModel,
    up_to: nat,
    line: K::Line,
    layers: Option<Seq<FaceId>>,
    count: Option<usize>,
    accept: bool,
    pose: Option<K::Pose>,
    grip: Option<K::Grip>,
) -> Result<FoldOutcome, Seq<char>> {
    match fold_request_verdict(s.doc.sequence.len(), up_to, layers is Some, count is Some, grip is Some) {
        Err(m) => Err(m),
        Ok(_) => match resolved_layers(kernel, s, up_to, line, layers, count, pose) {
            Err(m) => Err(m),
            Ok(l) => if pose is Some && grip is Some {
                Err(msg_pose_and_grip())
            } else {
                fold_through_outcome(kernel, s, up_to, line, l, accept, pose, grip)
            },
        },
    }
}

/// What a technique request comes to: the request is checked, then the technique is
/// applied to the flat state.
pub open spec fn technique_result<K: FoldKernel>(
    kernel: &K,
    s: StoreModel,
    up_to: nat,
    kind: TechniqueKind,
    input: K::TechniqueInput,
) -> Result<FoldOutcome, Seq<char>> {
    match technique_request_verdict(s.doc.sequence.len(), up_to, kind) {
        Err(m) => Err(m),
        Ok(_) => match kernel.flat_state_of(s.doc, s.faces, up_to) {
            Err(e) => Err(e@),
            Ok(t) => folded(kernel.technique_of(kind, s.doc.cp, s.faces, t.0, input), None, texts(t.1@)),
        },
    }
}

/// What a flat motion request comes to: the insertion point is checked, then the layers
/// of the flat state are moved.
pub open spec fn flat_motion_result<K: FoldKernel>(
    kernel: &K,
    s: StoreModel,
    up_to: nat,
    input: K::MotionInput,
) -> Result<FoldOutcome, Seq<char>> {
    if up_to > s.doc.sequence.len() {
        Err(msg_insert_out_of_range(up_to))
    } else {
        match kernel.flat_state_of(s.doc, s.faces, up_to) {
            Err(e) => Err(e@),
            Ok(t) => folded(kernel.flat_motion_of(s.doc.cp, s.faces, t.0, input), None, texts(t.1@)),
        }
    }
}

/// The store `s2` and the view `v` after the fold outcome `o` after the first `up_to`
/// steps of `s`: a recorded fold is committed as [`fold_recorded`] builds it, with the
/// faces the kernel derives; a fold that changed nothing commits the current work; the
/// warnings are those of [`fold_warnings`].
pub open spec fn fold_done<K: CreaseKernel>(
    kernel: &K,
    s: StoreModel,
    s2: StoreModel,
    v: DocumentView,
    up_to: nat,
    o: FoldOutcome,
    penetration: Seq<char>,
    fold_penetration: Seq<char>,
) -> bool {
    match o {
        FoldOutcome::Recorded(f) => {
            let e = fold_recorded(s.doc, s.step_creases, up_to as int, f.pose, f.step, f.cp, f.added);
            &&& s2 == committed(s, e.0, e.1, kernel.faces_of(e.0.cp))
            &&& shows(kernel, v, s2)
            &&& fold_warnings(texts(v.warnings@), f.leading, f.trailing, s.doc, up_to, penetration, fold_penetration)
        },
        FoldOutcome::Unchanged(t) => {
            &&& s2 == committed(s, s.doc, s.step_creases, kernel.faces_of(s.doc.cp))
            &&& shows(kernel, v, s2)
            &&& fold_warnings(texts(v.warnings@), Seq::empty(), t, s.doc, up_to, penetration, fold_penetration)
        },
    }
}

/// The warnings of reaching the state where a fold line is analysed; none where it
/// cannot be analysed.
pub open spec fn lookup_warnings<K: FoldKernel>(
    kernel: &K,
    doc: DocumentModel,
    faces: Seq<FaceModel>,
    up_to: nat,
    line: K::Line,
    pose: Option<K::Pose>,
) -> Seq<Seq<char>> {
    match kernel.analysis_of(doc, faces, up_to, line, pose) {
        None => Seq::empty(),
        Some(t) => texts(t.2@),
    }
}

/// What a preview of folding through comes to once its request is accepted: the warnings
/// of the state folded (or of the 3D fold) and the kernel's proposal, or the kernel's
/// refusal; the kernel is asked as [`fold_through_outcome`] describes.
pub open spec fn preview_through_outcome<K: FoldKernel>(
    kernel: &K,
    s: StoreModel,
    up_to: nat,
    line: K::Line,
    layers: Option<Seq<FaceId>>,
    pose: Option<K::Pose>,
    grip: Option<K::Grip>,
) -> Result<(Seq<Seq<char>>, Option<K::Proposal>), Seq<char>> {
    match pose {
        Some(p) => match kernel.flat_pose_of(s.doc, s.faces, up_to, p) {
            Err(e) => Err(e@),
            Ok(t) => match kernel.proposal_of(s.doc.cp, s.faces, t.0, line, layers) {
                Err(e) => Err(e@),
                Ok(q) => Ok((texts(t.2@), q)),
            },
        },
        None => {
            let frame = kernel.frame_of(s.doc, s.faces, up_to);
            let spatial_warnings = texts(
                kernel.spatial_fold_of(s.doc, s.faces, up_to, frame, grip, line, layers).warnings@,
            );
            if grip is Some && kernel.nonflat(frame) {
                Ok((spatial_warnings, None))
            } else {
                match kernel.flat_state_of(s.doc, s.faces, up_to) {
                    Ok(t) => match kernel.proposal_of(s.doc.cp, s.faces, t.0, line, layers) {
                        Err(e) => Err(e@),
                        Ok(q) => Ok((texts(t.1@), q)),
                    },
                    Err(e) => if kernel.nonflat(frame) {
                        Ok((spatial_warnings, None))
                    } else {
                        Err(e@)
                    },
                }
            }
        },
    }
}

/// What a preview of folding through comes to: the request is checked as a fold is, then
/// [`preview_through_outcome`].
pub open spec fn preview_through_result<K: FoldKernel>(
    kernel: &K,
    s: StoreModel,
    up_to: nat,
    line: K::Line,
    layers: Option<Seq<FaceId>>,
    count: Option<usize>,
    pose: Option<K::Pose>,
    grip: Option<K::Grip>,
) -> Result<(Seq<Seq<char>>, Option<K::Proposal>), Seq<char>> {
    match fold_request_verdict(s.doc.sequence.len(), up_to, layers is Some, count is Some, grip is Some) {
        Err(m) => Err(m),
        Ok(_) => match resolved_layers(kernel, s, up_to, line, layers, count, pose) {
            Err(m) => Err(m),
            Ok(l) => if pose is Some && grip is Some {
                Err(msg_pose_and_grip())
            } else {
                preview_through_outcome(kernel, s, up_to, line, l, pose, grip)
            },
        },
    }
}

impl DocumentStore {
    /// The faces to fold for `count` pleats under `line`: refused, with the verdict's
    /// reason, when the verdict offers no count or the kernel finds no faces.
    pub fn fold_target_faces_at<K: FoldKernel>(
        &self,
        kernel: &K,
        up_to: usize,
        line: &K::Line,
        pose: &Option<K::Pose>,
        count: usize,
    ) -> (r: Result<Vec<FaceId>, String>)
        ensures
            faces_for_count(kernel, self@.doc, self@.faces, up_to as nat, *line, *pose, count)
                == match r {
                Ok(f) => Ok(f@),
                Err(m) => Err::<Seq<FaceId>, Seq<char>>(m@),
            },
    {
        let lookup = fold_target_info_at(kernel, self.document(), self.faces(), up_to, line, pose);
        let found = match &lookup.analysis {
            Some(analysis) => kernel.target_faces_for_count(analysis, count),
            None => None,
        };
        fold_target_faces(&lookup.info, found)
    }

    /// Records the kernel's fold of the 3D shape `frame` after the first `up_to` steps, or
    /// reports that it changed nothing.
    fn fold_in_3d<K: FoldKernel>(
        &mut self,
        kernel: &K,
        up_to: usize,
        frame: &K::Frame,
        grip: &Option<K::Grip>,
        line: &K::Line,
        target_layers: &Option<Vec<FaceId>>,
        penetration: &String,
        fold_penetration: &String,
    ) -> (r: Result<DocumentView, String>)
        requires
            well_formed(old(self)@),
            up_to <= old(self)@.doc.sequence.len(),
        ensures
            r matches Ok(v) && fold_done(
                kernel,
                old(self)@,
                final(self)@,
                v,
                up_to as nat,
                spatial_outcome(
                    kernel.spatial_fold_of(
                        old(self)@.doc,
                        old(self)@.faces,
                        up_to as nat,
                        *frame,
                        *grip,
                        *line,
                        opt_seq(*target_layers),
                    ),
                ),
                penetration@,
                fold_penetration@,
            ),
            faces_current(kernel, old(self)@) ==> faces_current(kernel, final(self)@),
            well_formed(final(self)@),
    {
        let fold = kernel.fold_from_plane_3d(
            self.document(),
            self.faces(),
            up_to,
            frame,
            grip,
            line,
            target_layers,
        );
        match fold.step {
            Some(step) => {
                let none: Vec<String> = Vec::new();
                proof {
                    assert(texts(none@) =~= Seq::<Seq<char>>::empty());
                }
                self.record_fold(
                    kernel,
                    up_to,
                    None,
                    step,
                    fold.cp,
                    &fold.added_edges,
                    none,
                    fold.warnings,
                    penetration,
                    fold_penetration,
                )
            },
            None => self.report_unchanged(kernel, up_to, fold.warnings, penetration, fold_penetration),
        }
    }

    /// Records the kernel's fold `fold` made after the optional pose step, with the
    /// warnings `leading` of reaching the folded state.
    fn record_kernel_fold<K: FoldKernel>(
        &mut self,
        kernel: &K,
        up_to: usize,
        pose_step: Option<FoldStep>,
        fold: KernelFold,
        leading: Vec<String>,
        penetration: &String,
        fold_penetration: &String,
    ) -> (r: Result<DocumentView, String>)
        requires
            well_formed(old(self)@),
            up_to <= old(self)@.doc.sequence.len(),
        ensures
            folded(
                Ok(fold),
                match pose_step {
                    Some(p) => Some(p@),
                    None => None,
                },
                texts(leading@),
            ) matches Ok(o) && r matches Ok(v) && fold_done(
                kernel,
                old(self)@,
                final(self)@,
                v,
                up_to as nat,
                o,
                penetration@,
                fold_penetration@,
            ),
            faces_current(kernel, old(self)@) ==> faces_current(kernel, final(self)@),
            well_formed(final(self)@),
    {
        self.record_fold(
            kernel,
            up_to,
            pose_step,
            fold.step,
            fold.cp,
            &fold.added_edges,
            leading,
            fold.warnings,
            penetration,
            fold_penetration,
        )
    }

    /// Folds along `line` after the first `up_to` steps and records the fold as one
    /// change of the work. The request is checked first (insertion point, then a pleat
    /// count given with individual sheets, then a pleat count given with a grip point);
    /// a pleat count is turned into the faces it folds; a pose to reproduce cannot come
    /// with a grip point. With a pose, the pose step is recorded and the fold made on
    /// it; with a grip point on a shape that leaves the plane, the 3D shape is folded;
    /// otherwise the flat state is folded, falling back to the 3D shape when there is
    /// no flat state but the shape leaves the plane. A refusal changes nothing.
    pub fn apply_fold_through<K: FoldKernel>(
        &mut self,
        kernel: &K,
        up_to: usize,
        line: &K::Line,
        target_layers: Option<Vec<FaceId>>,
        target_pleat_count: Option<usize>,
        accept_additional_crease: bool,
        pose: Option<K::Pose>,
        grip: Option<K::Grip>,
        penetration: &String,
        fold_penetration: &String,
    ) -> (r: Result<DocumentView, String>)
        requires
            well_formed(old(self)@),
        ensures
            r is Err ==> final(self)@ == old(self)@,
            up_to > old(self)@.doc.sequence.len() ==> (r matches Err(e) && e@
                == msg_insert_out_of_range(up_to as nat)),
            up_to <= old(self)@.doc.sequence.len() && target_layers is Some
                && target_pleat_count is Some ==> (r matches Err(e) && e@ == msg_count_and_layers()),
            up_to <= old(self)@.doc.sequence.len() && target_layers is None
                && target_pleat_count is Some && grip is Some ==> (r matches Err(e) && e@
                == msg_count_and_grip()),
            ({
                let plan = fold_through_result(
                    kernel,
                    old(self)@,
                    up_to as nat,
                    *line,
                    opt_seq(target_layers),
                    target_pleat_count,
                    accept_additional_crease,
                    pose,
                    grip,
                );
                &&& plan matches Err(m) ==> r matches Err(e) && e@ == m
                &&& plan matches Ok(o) ==> r matches Ok(v) && fold_done(
                    kernel,
                    old(self)@,
                    final(self)@,
                    v,
                    up_to as nat,
                    o,
                    penetration@,
                    fold_penetration@,
                )
            }),
            faces_current(kernel, old(self)@) ==> faces_current(kernel, final(self)@),
            well_formed(final(self)@),
    {
        match check_fold_through_request(
            self.document(),
            up_to,
            target_layers.is_some(),
            target_pleat_count.is_some(),
            grip.is_some(),
        ) {
            Err(e) => return Err(e),
            Ok(_) => {},
        }
        let ghost given = opt_seq(target_layers);
        let target_layers = match target_pleat_count {
            Some(count) => match self.fold_target_faces_at(kernel, up_to, line, &pose, count) {
                Ok(f) => Some(f),
                Err(e) => return Err(e),
            },
            None => target_layers,
        };
        proof {
            assert(resolved_layers(kernel, self@, up_to as nat, *line, given, target_pleat_count, pose)
                == Ok::<Option<Seq<FaceId>>, Seq<char>>(opt_seq(target_layers)));
        }
        match check_pose_and_grip(pose.is_some(), grip.is_some()) {
            Err(e) => return Err(e),
            Ok(()) => {},
        }
        match pose {
            Some(p) => {
                match kernel.canonical_flat_pose_at(self.document(), self.faces(), up_to, &p) {
                    Err(e) => Err(e),
                    Ok((state, pose_step, pose_warnings)) => {
                        match kernel.fold_through(
                            &self.document().cp,
                            self.faces(),
                            &state,
                            line,
                            &target_layers,
                            accept_additional_crease,
                        ) {
                            Err(e) => Err(e),
                            Ok(fold) => self.record_kernel_fold(
                                kernel,
                                up_to,
                                Some(pose_step),
                                fold,
                                pose_warnings,
                                penetration,
                                fold_penetration,
                            ),
                        }
                    },
                }
            },
            None => {
                let current = match &grip {
                    Some(_) => Some(kernel.replay_frame(self.document(), self.faces(), up_to)),
                    None => None,
                };
                let spatial = match &current {
                    Some(frame) => kernel.frame_is_nonflat(frame),
                    None => false,
                };
                if spatial {
                    let frame = current.unwrap();
                    return self.fold_in_3d(
                        kernel,
                        up_to,
                        &frame,
                        &grip,
                        line,
                        &target_layers,
                        penetration,
                        fold_penetration,
                    );
                }
                match kernel.flat_state_at(self.document(), self.faces(), up_to) {
                    Ok((state, state_warnings)) => {
                        match kernel.fold_through(
                            &self.document().cp,
                            self.faces(),
                            &state,
                            line,
                            &target_layers,
                            accept_additional_crease,
                        ) {
                            Err(e) => Err(e),
                            Ok(fold) => self.record_kernel_fold(
                                kernel,
                                up_to,
                                None,
                                fold,
                                state_warnings,
                                penetration,
                                fold_penetration,
                            ),
                        }
                    },
                    Err(flat_error) => {
                        let frame = match current {
                            Some(frame) => frame,
                            None => kernel.replay_frame(self.document(), self.faces(), up_to),
                        };
                        if !kernel.frame_is_nonflat(&frame) {
                            return Err(flat_error);
                        }
                        self.fold_in_3d(
                            kernel,
                            up_to,
                            &frame,
                            &grip,
                            line,
                            &target_layers,
                            penetration,
                            fold_penetration,
                        )
                    },
                }
            },
        }
    }

    /// Applies a technique after the first `up_to` steps and records it as one change of
    /// the work. The insertion point is checked first, then whether the technique can be
    /// applied; the technique works on the flat state. A refusal changes nothing.
    pub fn apply_technique<K: FoldKernel>(
        &mut self,
        kernel: &K,
        up_to: usize,
        kind: TechniqueKind,
        input: &K::TechniqueInput,
        penetration: &String,
        fold_penetration: &String,
    ) -> (r: Result<DocumentView, String>)
        requires
            well_formed(old(self)@),
        ensures
            r is Err ==> final(self)@ == old(self)@,
            up_to > old(self)@.doc.sequence.len() ==> (r matches Err(e) && e@
                == msg_insert_out_of_range(up_to as nat)),
            up_to <= old(self)@.doc.sequence.len() && !technique_available(kind) ==> (r matches Err(e)
                && e@ == msg_technique_unavailable()),
            ({
                let plan = technique_result(kernel, old(self)@, up_to as nat, kind, *input);
                &&& plan matches Err(m) ==> r matches Err(e) && e@ == m
                &&& plan matches Ok(o) ==> r matches Ok(v) && fold_done(
                    kernel,
                    old(self)@,
                    final(self)@,
                    v,
                    up_to as nat,
                    o,
                    penetration@,
                    fold_penetration@,
                )
            }),
            faces_current(kernel, old(self)@) ==> faces_current(kernel, final(self)@),
            well_formed(final(self)@),
    {
        match check_technique_request(self.document(), up_to, kind) {
            Err(e) => return Err(e),
            Ok(_) => {},
        }
        match kernel.flat_state_at(self.document(), self.faces(), up_to) {
            Err(e) => Err(e),
            Ok((state, state_warnings)) => {
                match kernel.technique(kind, &self.document().cp, self.faces(), &state, input) {
                    Err(e) => Err(e),
                    Ok(fold) => self.record_kernel_fold(
                        kernel,
                        up_to,
                        None,
                        fold,
                        state_warnings,
                        penetration,
                        fold_penetration,
                    ),
                }
            },
        }
    }

    /// Moves layers flat after the first `up_to` steps and records it as one change of
    /// the work. The insertion point is checked first; the motion works on the flat
    /// state. A refusal changes nothing.
    pub fn apply_flat_motion<K: FoldKernel>(
        &mut self,
        kernel: &K,
        up_to: usize,
        input: &K::MotionInput,
        penetration: &String,
        fold_penetration: &String,
    ) -> (r: Result<DocumentView, String>)
        requires
            well_formed(old(self)@),
        ensures
            r is Err ==> final(self)@ == old(self)@,
            up_to > old(self)@.doc.sequence.len() ==> (r matches Err(e) && e@
                == msg_insert_out_of_range(up_to as nat)),
            ({
                let plan = flat_motion_result(kernel, old(self)@, up_to as nat, *input);
                &&& plan matches Err(m) ==> r matches Err(e) && e@ == m
                &&& plan matches Ok(o) ==> r matches Ok(v) && fold_done(
                    kernel,
                    old(self)@,
                    final(self)@,
                    v,
                    up_to as nat,
                    o,
                    penetration@,
                    fold_penetration@,
                )
            }),
            faces_current(kernel, old(self)@) ==> faces_current(kernel, final(self)@),
            well_formed(final(self)@),
    {
        match check_insert_point(self.document(), up_to) {
            Err(e) => return Err(e),
            Ok(_) => {},
        }
        match kernel.flat_state_at(self.document(), self.faces(), up_to) {
            Err(e) => Err(e),
            Ok((state, state_warnings)) => {
                match kernel.flat_motion(&self.document().cp, self.faces(), &state, input) {
                    Err(e) => Err(e),
                    Ok(fold) => self.record_kernel_fold(
                        kernel,
                        up_to,
                        None,
                        fold,
                        state_warnings,
                        penetration,
                        fold_penetration,
                    ),
                }
            },
        }
    }

    /// A preview of the verdict on a fold line after the first `up_to` steps; nothing in
    /// the store changes. An insertion point past the last step is refused.
    pub fn preview_fold_targets<K: FoldKernel>(
        &self,
        kernel: &K,
        up_to: usize,
        line: &K::Line,
        pose: &Option<K::Pose>,
    ) -> (r: Result<DocumentView, String>)
        ensures
            up_to > self@.doc.sequence.len() ==> (r matches Err(e) && e@ == msg_insert_out_of_range(
                up_to as nat,
            )),
            up_to <= self@.doc.sequence.len() ==> (r matches Ok(v) && v.doc@ == self@.doc
                && shows(kernel, v, self@) && (v.fold_target_info matches Some(i) && i@ == verdict_at(
                kernel,
                self@.doc,
                self@.faces,
                up_to as nat,
                *line,
                *pose,
            )) && texts(v.warnings@) == lookup_warnings(
                kernel,
                self@.doc,
                self@.faces,
                up_to as nat,
                *line,
                *pose,
            ) + kernel.validation_of(self@.doc.cp)),
    {
        match check_insert_point(self.document(), up_to) {
            Err(e) => return Err(e),
            Ok(_) => {},
        }
        let lookup = fold_target_info_at(kernel, self.document(), self.faces(), up_to, line, pose);
        proof {
            if lookup.warnings@.len() == 0 {
                assert(texts(lookup.warnings@) =~= Seq::<Seq<char>>::empty());
            }
        }
        self.preview_fold(kernel, up_to, Some(lookup.info), lookup.warnings)
    }

    /// A preview of folding along `line` after the first `up_to` steps: the view of the
    /// current work with the warnings of the folded state and the kernel's proposal of
    /// folding through, if any; the request is checked as a fold is. Nothing in the
    /// store changes.
    pub fn preview_fold_through<K: FoldKernel>(
        &self,
        kernel: &K,
        up_to: usize,
        line: &K::Line,
        target_layers: Option<Vec<FaceId>>,
        target_pleat_count: Option<usize>,
        pose: Option<K::Pose>,
        grip: Option<K::Grip>,
        penetration: &String,
        fold_penetration: &String,
    ) -> (r: Result<(DocumentView, Option<K::Proposal>), String>)
        ensures
            up_to > self@.doc.sequence.len() ==> (r matches Err(e) && e@ == msg_insert_out_of_range(
                up_to as nat,
            )),
            up_to <= self@.doc.sequence.len() && target_layers is Some && target_pleat_count is Some
                ==> (r matches Err(e) && e@ == msg_count_and_layers()),
            up_to <= self@.doc.sequence.len() && target_layers is None && target_pleat_count is Some
                && grip is Some ==> (r matches Err(e) && e@ == msg_count_and_grip()),
            ({
                let plan = preview_through_result(
                    kernel,
                    self@,
                    up_to as nat,
                    *line,
                    opt_seq(target_layers),
                    target_pleat_count,
                    pose,
                    grip,
                );
                let detect = self@.doc.display.penetration_prevention_enabled;
                &&& plan matches Err(m) ==> r matches Err(e) && e@ == m
                &&& plan matches Ok(t) ==> r matches Ok(p) && p.1 == t.1 && shows(kernel, p.0, self@)
                    && p.0.fold_target_info is None && texts(p.0.warnings@) == shown(
                    t.0,
                    detect,
                    penetration@,
                    fold_penetration@,
                ) + kernel.validation_of(self@.doc.cp)
            }),
            r matches Ok(p) ==> p.0.doc@ == self@.doc,
    {
        match check_fold_through_request(
            self.document(),
            up_to,
            target_layers.is_some(),
            target_pleat_count.is_some(),
            grip.is_some(),
        ) {
            Err(e) => return Err(e),
            Ok(_) => {},
        }
        let ghost given = opt_seq(target_layers);
        let target_layers = match target_pleat_count {
            Some(count) => match self.fold_target_faces_at(kernel, up_to, line, &pose, count) {
                Ok(f) => Some(f),
                Err(e) => return Err(e),
            },
            None => target_layers,
        };
        proof {
            assert(resolved_layers(kernel, self@, up_to as nat, *line, given, target_pleat_count, pose)
                == Ok::<Option<Seq<FaceId>>, Seq<char>>(opt_seq(target_layers)));
        }
        match check_pose_and_grip(pose.is_some(), grip.is_some()) {
            Err(e) => return Err(e),
            Ok(()) => {},
        }
        let mut proposal: Option<K::Proposal> = None;
        let mut warnings: Vec<String> = Vec::new();
        match pose {
            Some(p) => {
                match kernel.canonical_flat_pose_at(self.document(), self.faces(), up_to, &p) {
                    Err(e) => return Err(e),
                    Ok((state, _pose_step, pose_warnings)) => {
                        match kernel.propose_fold_through(
                            &self.document().cp,
                            self.faces(),
                            &state,
                            line,
                            &target_layers,
                        ) {
                            Err(e) => return Err(e),
                            Ok(found) => {
                                proposal = found;
                            },
                        }
                        warnings = pose_warnings;
                    },
                }
            },
            None => {
                let current = match &grip {
                    Some(_) => Some(kernel.replay_frame(self.document(), self.faces(), up_to)),
                    None => None,
                };
                let spatial = match &current {
                    Some(frame) => kernel.frame_is_nonflat(frame),
                    None => false,
                };
                if spatial {
                    let frame = current.unwrap();
                    warnings = kernel.fold_from_plane_3d(
                        self.document(),
                        self.faces(),
                        up_to,
                        &frame,
                        &grip,
                        line,
                        &target_layers,
                    ).warnings;
                } else {
                    match kernel.flat_state_at(self.document(), self.faces(), up_to) {
                        Ok((state, state_warnings)) => {
                            match kernel.propose_fold_through(
                                &self.document().cp,
                                self.faces(),
                                &state,
                                line,
                                &target_layers,
                            ) {
                                Err(e) => return Err(e),
                                Ok(found) => {
                                    proposal = found;
                                },
                            }
                            warnings = state_warnings;
                        },
                        Err(flat_error) => {
                            let frame = match current {
                                Some(frame) => frame,
                                None => kernel.replay_frame(self.document(), self.faces(), up_to),
                            };
                            if !kernel.frame_is_nonflat(&frame) {
                                return Err(flat_error);
                            }
                            warnings = kernel.fold_from_plane_3d(
                                self.document(),
                                self.faces(),
                                up_to,
                                &frame,
                                &grip,
                                line,
                                &target_layers,
                            ).warnings;
                        },
                    }
                }
            },
        }
        let ghost found = texts(warnings@);
        let detect = self.document().display.penetration_prevention_enabled;
        crate::surface::filter_penetration_warnings(&mut warnings, detect, penetration, fold_penetration);
        proof {
            assert(texts(warnings@) == shown(found, detect, penetration@, fold_penetration@));
        }
        match self.preview_fold(kernel, up_to, None, warnings) {
            Err(e) => Err(e),
            Ok(view) => Ok((view, proposal)),
        }
    }
}

} // verus!

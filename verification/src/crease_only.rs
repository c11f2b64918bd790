//! Creasing only the top sheet of a partly folded work: the top sheet under a point of the
//! material, the verdict on a line drawn on the material, and the recording of the crease
//! (with the pose that reproduces the folded shape first), checked against the pose and
//! against a replay from scratch before it is committed.
//!
//! Reproducing the pose, locating the point on the faces, classifying the folds round the
//! top sheet, placing the crease and replaying are the kernel's; the library decides the
//! order of the checks, what is recorded and what the user is told.
use vstd::prelude::*;
use vstd::string::*;

use crate::fold_target::{
    crease_only_error_text, crease_only_fold_target_info, crease_only_info,
    material_crease_only_error_message,
    unavailable_fold_target_info, unavailable_info, FoldTargetInfo, SpatialCreaseOnlyError,
};
use crate::model::{
    faces_model, CreasePattern, CreasePatternModel, Document, DocumentModel, EdgeId, Face, FaceId,
    FaceModel, FoldStep, FoldStepModel, StepId, TechniqueKind,
};
use crate::poses::{pose_lines, pose_step_from_input, pose_step_note, PoseDriver};
use crate::replay::{attach_replay, ReplayKernel, ReplayedView};
use crate::replay_check::{
    drift_pairs, pair_at, verify_cold_crease_only_replay, ColdReplay, Drift, Point3,
};
use crate::steps::{check_insert_point, msg_insert_out_of_range};
use crate::store::{
    build_view, committed, faces_current, fold_recorded, well_formed, DocumentStore, DocumentView,
    StoreModel,
};
use crate::surface::{filter_penetration_warnings, verify_direct_crease_only_pose_is_unchanged, MaterialVertex};
use crate::top_surface::{angles_invalid, is_finite_bits, top_surface, TopSurface};

verus! {

/// The folded shape reproduced before a crease goes on the top sheet: the kernel's pose,
/// the signed angle of each hinge (bit patterns of degrees), where each vertex of the
/// material lies, and the warnings of reaching the pose.
pub struct NonflatPose<P> {
    pub pose: P,
    pub angles: Vec<(EdgeId, u64)>,
    pub vertices: Vec<MaterialVertex>,
    pub warnings: Vec<String>,
}

/// What the top sheet is, as handed to the kernel's creasing: its faces and how it lies
/// on the sheet below.
pub struct TopObservation<R> {
    pub surface_faces: Vec<FaceId>,
    pub relation: R,
}

/// A crease put on the top sheet: the new step, the pattern after it, the edges it drew
/// and where each vertex of the material lies afterwards.
pub struct CreasedTop {
    pub step: FoldStep,
    pub cp: CreasePattern,
    pub added_edges: Vec<EdgeId>,
    pub vertices: Vec<MaterialVertex>,
}

/// The drivers of an optional pose request, as a sequence.
pub open spec fn opt_drivers(o: Option<Vec<PoseDriver>>) -> Option<Seq<PoseDriver>> {
    match o {
        Some(v) => Some(v@),
        None => None,
    }
}

/// The kernel's computations for creasing the top sheet. Each result is named by a spec
/// function, and each method returns exactly the named value.
pub trait CreaseOnlyKernel: ReplayKernel {
    /// A reproduced folded shape.
    type Pose;
    /// The line drawn on the material, the direction of the crease and the alignment the
    /// new step keeps.
    type Line;
    /// How the top sheet lies on the sheet below.
    type Relation;

    /// The folded shape after the first `up_to` steps (of the requested pose, if any).
    closed spec fn nonflat_pose_of(
        &self,
        doc: DocumentModel,
        faces: Seq<FaceModel>,
        up_to: nat,
        pose_before: Option<Seq<PoseDriver>>,
    ) -> Result<NonflatPose<Self::Pose>, String> {
        vstd::pervasive::arbitrary()
    }

    /// The faces of the paper that contain a point.
    closed spec fn containing_of(
        &self,
        cp: CreasePatternModel,
        faces: Seq<FaceModel>,
        point: (u64, u64),
    ) -> Seq<FaceId> {
        vstd::pervasive::arbitrary()
    }

    /// How a top sheet lies on the sheet below, from the angles of the hinges round it.
    closed spec fn relation_of(&self, boundary: Seq<(EdgeId, Option<u64>)>) -> Option<Self::Relation> {
        vstd::pervasive::arbitrary()
    }

    /// The crease along a line on an observed top sheet, on the side of `keep`.
    closed spec fn creased_of(
        &self,
        cp: CreasePatternModel,
        faces: Seq<FaceModel>,
        pose: Self::Pose,
        line: Self::Line,
        keep: (u64, u64),
        top: TopObservation<Self::Relation>,
    ) -> Result<CreasedTop, SpatialCreaseOnlyError> {
        vstd::pervasive::arbitrary()
    }

    /// The replay of the first `up_to` steps from scratch.
    closed spec fn cold_replay_of(&self, doc: DocumentModel, faces: Seq<FaceModel>, up_to: nat) -> ColdReplay {
        vstd::pervasive::arbitrary()
    }

    /// How far a replayed point lies from the expected one.
    closed spec fn drift_of(&self, actual: Point3, expected: Point3) -> Drift {
        vstd::pervasive::arbitrary()
    }

    /// The folded shape after the first `up_to` steps, after reproducing the requested
    /// pose if there is one.
    fn canonical_nonflat_pose_at(
        &self,
        doc: &Document,
        faces: &Vec<Face>,
        up_to: usize,
        pose_before: &Option<Vec<PoseDriver>>,
    ) -> (r: Result<NonflatPose<Self::Pose>, String>)
        ensures
            r == self.nonflat_pose_of(doc@, faces_model(faces@), up_to as nat, opt_drivers(*pose_before)),
    ;

    /// The faces of the paper that contain the point with coordinates `point` (bit
    /// patterns), in the order of `faces`.
    fn faces_containing(&self, cp: &CreasePattern, faces: &Vec<Face>, point: (u64, u64)) -> (r: Vec<
        FaceId,
    >)
        ensures
            r@ == self.containing_of(cp@, faces_model(faces@), point),
    ;

    /// How the top sheet lies on the sheet below, from the angles of the hinges round it;
    /// nothing when the hinges disagree.
    fn top_relation(&self, boundary: &Vec<(EdgeId, Option<u64>)>) -> (r: Option<Self::Relation>)
        ensures
            r == self.relation_of(boundary@),
    ;

    /// Puts a crease along `line` on the observed top sheet only, on the side of the point
    /// `keep`.
    fn crease_only_top(
        &self,
        cp: &CreasePattern,
        faces: &Vec<Face>,
        pose: &Self::Pose,
        line: &Self::Line,
        keep: (u64, u64),
        top: TopObservation<Self::Relation>,
    ) -> (r: Result<CreasedTop, SpatialCreaseOnlyError>)
        ensures
            r == self.creased_of(cp@, faces_model(faces@), *pose, *line, keep, top),
    ;

    /// Replays the first `up_to` steps from scratch, with nothing cached.
    fn replay_endpoint_uncached(&self, doc: &Document, faces: &Vec<Face>, up_to: usize) -> (r:
        ColdReplay)
        ensures
            r == self.cold_replay_of(doc@, faces_model(faces@), up_to as nat),
    ;

    /// How far the replayed point `actual` lies from `expected`.
    fn drift(&self, actual: &Point3, expected: &Point3) -> (r: Drift)
        ensures
            r == self.drift_of(*actual, *expected),
    ;
}

/// The top sheet under the point `point` of the material in the pose, as handed to the
/// kernel's creasing: the faces that [`top_surface`] finds, and how they lie on the sheet
/// below. Refused as [`top_surface`] refuses, and as ambiguous where the hinges round the
/// top sheet disagree.
pub fn observe_top<K: CreaseOnlyKernel>(
    kernel: &K,
    cp: &CreasePattern,
    faces: &Vec<Face>,
    pose: &NonflatPose<K::Pose>,
    point: (u64, u64),
) -> (r: Result<TopObservation<K::Relation>, SpatialCreaseOnlyError>)
    ensures
        !(is_finite_bits(point.0) && is_finite_bits(point.1)) ==> r matches Err(
            SpatialCreaseOnlyError::NonFiniteInput,
        ),
        is_finite_bits(point.0) && is_finite_bits(point.1) && angles_invalid(pose.angles@) ==> r matches Err(
            SpatialCreaseOnlyError::InvalidTopRelation,
        ),
{
    let candidates = kernel.faces_containing(cp, faces, point);
    let top: TopSurface = top_surface(point, &pose.angles, faces, &candidates)?;
    match kernel.top_relation(&top.boundary) {
        Some(relation) => Ok(TopObservation { surface_faces: top.surface_faces, relation }),
        None => Err(SpatialCreaseOnlyError::AmbiguousTopSurface),
    }
}

/// The verdict on a line drawn on the material after the first `up_to` steps (of the pose
/// to reproduce, if any), with the warnings of reaching the pose: a crease can go on the
/// top sheet exactly where the kernel places one; the line is unavailable where the pose
/// cannot be reached, the top sheet cannot be observed or no crease can be placed.
pub fn material_fold_target_info_at<K: CreaseOnlyKernel>(
    kernel: &K,
    doc: &Document,
    faces: &Vec<Face>,
    up_to: usize,
    line: &K::Line,
    keep: (u64, u64),
    pose_before: &Option<Vec<PoseDriver>>,
) -> (r: (FoldTargetInfo, Vec<String>))
    ensures
        r.0@ == crease_only_info() || r.0@ == unavailable_info(),
        ({
            let pose = kernel.nonflat_pose_of(doc@, faces_model(faces@), up_to as nat, opt_drivers(*pose_before));
            &&& pose is Err ==> r.0@ == unavailable_info() && r.1@.len() == 0
            &&& pose is Ok ==> r.1 == pose->Ok_0.warnings
            &&& pose is Ok && (!(is_finite_bits(keep.0) && is_finite_bits(keep.1)) || angles_invalid(
                pose->Ok_0.angles@,
            )) ==> r.0@ == unavailable_info()
        }),
{
    let pose = match kernel.canonical_nonflat_pose_at(doc, faces, up_to, pose_before) {
        Ok(p) => p,
        Err(_) => {
            return (unavailable_fold_target_info(), Vec::new());
        },
    };
    let top = match observe_top(kernel, &doc.cp, faces, &pose, keep) {
        Ok(t) => t,
        Err(_) => {
            return (unavailable_fold_target_info(), pose.warnings);
        },
    };
    let info = match kernel.crease_only_top(&doc.cp, faces, &pose.pose, line, keep, top) {
        Ok(_) => crease_only_fold_target_info(),
        Err(_) => unavailable_fold_target_info(),
    };
    (info, pose.warnings)
}

/// The drift of each compared point of a replay, measured by the kernel on the pairs that
/// [`drift_pairs`] gives; a point with no pair is within the tolerance.
pub fn measure_drift<K: CreaseOnlyKernel>(
    kernel: &K,
    pose: &Vec<MaterialVertex>,
    material: &Vec<Face>,
    cold: &ColdReplay,
) -> (r: Vec<Vec<Drift>>)
    ensures
        r@.len() == cold.faces@.len(),
        forall|i: int| 0 <= i < r@.len() ==> (#[trigger] r@[i])@.len() == cold.faces@[i].polygon@.len(),
        forall|i: int, j: int|
            0 <= i < r@.len() && 0 <= j < cold.faces@[i].polygon@.len() ==> #[trigger] r@[i]@[j]
                == match pair_at(pose@, faces_model(material@), cold.faces@[i]@, j) {
                Some(p) => kernel.drift_of(p.0, p.1),
                None => Drift::Within,
            },
{
    let pairs = drift_pairs(pose, material, &cold.faces);
    let mut rows: Vec<Vec<Drift>> = Vec::new();
    let mut i: usize = 0;
    while i < pairs.len()
        invariant
            pairs@.len() == cold.faces@.len(),
            forall|a: int| 0 <= a < pairs@.len() ==> (#[trigger] pairs@[a])@.len() == cold.faces@[a].polygon@.len(),
            i <= pairs@.len(),
            rows@.len() == i,
            forall|a: int| 0 <= a < i ==> (#[trigger] rows@[a])@.len() == cold.faces@[a].polygon@.len(),
            forall|a: int, b: int|
                0 <= a < cold.faces@.len() && 0 <= b < cold.faces@[a].polygon@.len() ==> #[trigger] pairs@[a]@[b]
                    == pair_at(pose@, faces_model(material@), cold.faces@[a]@, b),
            forall|a: int, b: int|
                0 <= a < i && 0 <= b < cold.faces@[a].polygon@.len() ==> #[trigger] rows@[a]@[b]
                    == match pair_at(pose@, faces_model(material@), cold.faces@[a]@, b) {
                    Some(p) => kernel.drift_of(p.0, p.1),
                    None => Drift::Within,
                },
        decreases pairs@.len() - i,
    {
        let pair_row = &pairs[i];
        let mut row: Vec<Drift> = Vec::new();
        let mut j: usize = 0;
        while j < pair_row.len()
            invariant
                j <= pair_row@.len(),
                row@.len() == j,
                forall|b: int|
                    0 <= b < j ==> #[trigger] row@[b] == match pair_row@[b] {
                        Some(p) => kernel.drift_of(p.0, p.1),
                        None => Drift::Within,
                    },
            decreases pair_row@.len() - j,
        {
            let d = match &pair_row[j] {
                Some((actual, expected)) => kernel.drift(actual, expected),
                None => Drift::Within,
            };
            row.push(d);
            j += 1;
        }
        let ghost prev = rows@;
        rows.push(row);
        proof {
            assert forall|a: int, b: int|
                0 <= a < i + 1 && 0 <= b < cold.faces@[a].polygon@.len() implies #[trigger] rows@[a]@[b]
                    == match pair_at(pose@, faces_model(material@), cold.faces@[a]@, b) {
                    Some(p) => kernel.drift_of(p.0, p.1),
                    None => Drift::Within,
                } by {
                if a < i {
                    assert(rows@[a] == prev[a]);
                } else {
                    assert(pairs@[a]@[b] == pair_at(pose@, faces_model(material@), cold.faces@[a]@, b));
                }
            }
        }
        i += 1;
    }
    rows
}

/// The pose step a pose request records: the lines of its drivers, as
/// [`pose_step_from_input`] builds it.
pub open spec fn requested_pose_step(cp: CreasePatternModel, pose_before: Option<Seq<PoseDriver>>) -> Option<
    FoldStepModel,
> {
    match pose_before {
        Some(d) => Some(
            FoldStepModel {
                id: 0,
                kind: TechniqueKind::Pose,
                drivers: pose_lines(cp, d)->Ok_0,
                note: pose_step_note(),
                extra: Seq::empty(),
            },
        ),
        None => None,
    }
}

/// The store after a crease on the top sheet was recorded after the first `up_to` steps:
/// the kernel reproduced the pose `pose` and creased some observed top sheet along `line`,
/// and the pose step of the request and the crease go in as [`fold_recorded`] describes,
/// with the faces the kernel derives.
pub open spec fn crease_recorded<K: CreaseOnlyKernel>(
    kernel: &K,
    s: StoreModel,
    s2: StoreModel,
    up_to: int,
    line: K::Line,
    keep: (u64, u64),
    pose_before: Option<Seq<PoseDriver>>,
) -> bool {
    &&& kernel.nonflat_pose_of(s.doc, s.faces, up_to as nat, pose_before) is Ok
    &&& pose_before matches Some(d) ==> pose_lines(s.doc.cp, d) is Ok
    &&& exists|top: TopObservation<K::Relation>|
        #[trigger] crease_recorded_on(kernel, s, s2, up_to, line, keep, pose_before, top)
}

/// [`crease_recorded`] with the top sheet `top` observed.
pub open spec fn crease_recorded_on<K: CreaseOnlyKernel>(
    kernel: &K,
    s: StoreModel,
    s2: StoreModel,
    up_to: int,
    line: K::Line,
    keep: (u64, u64),
    pose_before: Option<Seq<PoseDriver>>,
    top: TopObservation<K::Relation>,
) -> bool {
    let pose = kernel.nonflat_pose_of(s.doc, s.faces, up_to as nat, pose_before)->Ok_0;
    let c = kernel.creased_of(s.doc.cp, s.faces, pose.pose, line, keep, top);
    &&& c is Ok
    &&& {
        let e = fold_recorded(
            s.doc,
            s.step_creases,
            up_to,
            requested_pose_step(s.doc.cp, pose_before),
            c->Ok_0.step@,
            c->Ok_0.cp@,
            c->Ok_0.added_edges@,
        );
        s2 == committed(s, e.0, e.1, kernel.faces_of(e.0.cp))
    }
}

impl DocumentStore {
    /// Creases only the top sheet along a line drawn on the material, after the first
    /// `up_to` steps (of the requested pose, reproduced first, if any), and records it as
    /// one change of the work: the pose step first when a pose is requested, then the
    /// crease step. In order: the insertion point is checked, the pose reproduced, the top
    /// sheet under the point `keep` observed and creased (a refusal of the kernel told as
    /// [`material_crease_only_error_message`] words it), the 3D shape checked to be
    /// unchanged by the crease, the pose step built from the request, and the new work
    /// replayed from scratch and checked before anything is committed. A refusal changes
    /// nothing. The view comes with the replay of all the steps.
    pub fn apply_crease_only_top<K: CreaseOnlyKernel>(
        &mut self,
        kernel: &K,
        up_to: usize,
        line: &K::Line,
        keep: (u64, u64),
        pose_before: Option<Vec<PoseDriver>>,
        penetration: &String,
        fold_penetration: &String,
    ) -> (r: Result<ReplayedView<K::Geometry, K::Details>, String>)
        requires
            well_formed(old(self)@),
        ensures
            r is Err ==> final(self)@ == old(self)@,
            up_to > old(self)@.doc.sequence.len() ==> (r matches Err(e) && e@
                == msg_insert_out_of_range(up_to as nat)),
            r matches Ok(v) ==> v.view.doc@ == final(self)@.doc && crease_recorded(
                kernel,
                old(self)@,
                final(self)@,
                up_to as int,
                *line,
                keep,
                opt_drivers(pose_before),
            ),
            up_to <= old(self)@.doc.sequence.len() ==> ({
                let pose = kernel.nonflat_pose_of(
                    old(self)@.doc,
                    old(self)@.faces,
                    up_to as nat,
                    opt_drivers(pose_before),
                );
                &&& pose is Err ==> (r matches Err(m) && m@ == pose->Err_0@)
                &&& pose is Ok && !(is_finite_bits(keep.0) && is_finite_bits(keep.1)) ==> (r matches Err(
                    m,
                ) && m@ == crease_only_error_text(SpatialCreaseOnlyError::NonFiniteInput))
                &&& pose is Ok && is_finite_bits(keep.0) && is_finite_bits(keep.1) && angles_invalid(
                    pose->Ok_0.angles@,
                ) ==> (r matches Err(m) && m@ == crease_only_error_text(
                    SpatialCreaseOnlyError::InvalidTopRelation,
                ))
            }),
            faces_current(kernel, old(self)@) ==> faces_current(kernel, final(self)@),
            well_formed(final(self)@),
    {
        check_insert_point(self.document(), up_to)?;
        let pose = match kernel.canonical_nonflat_pose_at(self.document(), self.faces(), up_to, &pose_before) {
            Ok(p) => p,
            Err(e) => {
                return Err(e);
            },
        };
        let top = match observe_top(kernel, &self.document().cp, self.faces(), &pose, keep) {
            Ok(t) => t,
            Err(e) => {
                return Err(material_crease_only_error_message(e));
            },
        };
        let ghost observed = top;
        let creased = match kernel.crease_only_top(&self.document().cp, self.faces(), &pose.pose, line, keep, top) {
            Ok(c) => c,
            Err(e) => {
                return Err(material_crease_only_error_message(e));
            },
        };
        verify_direct_crease_only_pose_is_unchanged(&pose.vertices, &creased.vertices)?;
        let pose_step = match &pose_before {
            Some(drivers) => Some(pose_step_from_input(&self.document().cp, drivers)?),
            None => None,
        };
        let has_pose = pose_step.is_some();
        let ghost s = self@;
        let ghost pm = match &pose_step {
            Some(p) => Some(p@),
            None => None,
        };
        let ghost sm = creased.step@;
        let ghost cpm = creased.cp@;
        let ghost added = creased.added_edges@;
        let (doc, creases, notices) = self.fold_candidate(
            up_to,
            pose_step,
            creased.step,
            creased.cp,
            &creased.added_edges,
        )?;
        proof {
            assert(doc@.sequence.len() == s.doc.sequence.len() + if has_pose { 2int } else { 1int });
            assert(doc.sequence@.len() == doc@.sequence.len());
        }
        let n = doc.sequence.len();
        let replay_up_to = if has_pose {
            up_to + 2
        } else {
            up_to + 1
        };
        let mut inserted: Vec<StepId> = Vec::new();
        if has_pose {
            inserted.push(doc.sequence[up_to].id);
        }
        if replay_up_to - 1 < n {
            inserted.push(doc.sequence[replay_up_to - 1].id);
        }
        let mut warnings = pose.warnings;
        crate::store::append_messages(&mut warnings, &notices);
        filter_penetration_warnings(
            &mut warnings,
            doc.display.penetration_prevention_enabled,
            penetration,
            fold_penetration,
        );
        let view = build_view(kernel, &doc, &creases, warnings);
        if replay_up_to > view.doc.sequence.len() {
            return Err(String::from_str("保存した折った形の位置を読み直せないため、変更しませんでした。"));
        }
        let cold = kernel.replay_endpoint_uncached(&view.doc, &view.faces, replay_up_to);
        let drift = measure_drift(kernel, &pose.vertices, &view.faces, &cold);
        verify_cold_crease_only_replay(&pose.vertices, &creased.vertices, &inserted, &view.faces, &cold, &drift)?;
        let replayed = attach_replay(kernel, view, penetration, fold_penetration);
        let ReplayedView {
            view,
            frame,
            details,
            targets,
            angles,
            skipped,
            suspect_hinges,
            flat_fold_violations,
            contact_detected,
            best_effort,
            converged,
        } = replayed;
        let view = self.commit_prebuilt(doc, creases, view);
        proof {
            let e = fold_recorded(s.doc, s.step_creases, up_to as int, pm, sm, cpm, added);
            assert(pm == requested_pose_step(s.doc.cp, opt_drivers(pose_before)));
            assert(self@ == committed(s, e.0, e.1, kernel.faces_of(e.0.cp)));
            assert(crease_recorded_on(kernel, s, self@, up_to as int, *line, keep, opt_drivers(pose_before), observed));
        }
        Ok(ReplayedView {
            view,
            frame,
            details,
            targets,
            angles,
            skipped,
            suspect_hinges,
            flat_fold_violations,
            contact_detected,
            best_effort,
            converged,
        })
    }

    /// A preview of the verdict on a line drawn on the material after the first `up_to`
    /// steps, as [`material_fold_target_info_at`] gives it; nothing in the store changes.
    /// An insertion point past the last step is refused.
    pub fn preview_fold_targets_on_material<K: CreaseOnlyKernel>(
        &self,
        kernel: &K,
        up_to: usize,
        line: &K::Line,
        keep: (u64, u64),
        pose_before: &Option<Vec<PoseDriver>>,
    ) -> (r: Result<DocumentView, String>)
        ensures
            up_to > self@.doc.sequence.len() ==> (r matches Err(e) && e@ == msg_insert_out_of_range(
                up_to as nat,
            )),
            up_to <= self@.doc.sequence.len() ==> (r matches Ok(v) && v.doc@ == self@.doc && (
            v.fold_target_info matches Some(info) && (info@ == crease_only_info() || info@
                == unavailable_info()))),
    {
        check_insert_point(self.document(), up_to)?;
        let (info, warnings) = material_fold_target_info_at(
            kernel,
            self.document(),
            self.faces(),
            up_to,
            line,
            keep,
            pose_before,
        );
        self.preview_fold(kernel, up_to, Some(info), warnings)
    }
}

} // verus!

//! The replay of a work's steps attached to its view: the stacking order of the replayed
//! frame, the layer corrections and warnings the display settings ask for, the penetration
//! diagnostics and the flat-fold notice.
//!
//! Replaying the steps, placing the frame in 3D and detecting intersections are geometric
//! computations of the kernel; the library decides which of them run, in which order, and
//! what the user is told.
use std::collections::HashMap;
use vstd::prelude::*;

use crate::edits::texts;
use crate::kernel::CreaseKernel;
use crate::model::{
    faces_model, CreasePattern, CreasePatternModel, Document, DocumentModel, Edge, EdgeId, Face,
    FaceId, FaceModel, StepId, VertexId,
};
use crate::poses::{
    flat_hinges, is_flat_hinge, latest_target, requested_kind, requested_pattern, PoseDriver,
};
use crate::store::DocumentView;
use crate::surface::{
    faces_distinct, filter_penetration_warnings, layer_from_order, layer_in_order, note_penetration,
    ranks_complete, replay_surface_rank_order, without_messages, RankedFace,
};

verus! {

broadcast use vstd::std_specs::hash::group_hash_axioms;

/// Where one face of a frame lies: its layer for later steps and its place in the stack.
#[derive(Clone, Copy, Debug, PartialEq, Eq, Structural)]
pub struct FrameFace {
    pub face: FaceId,
    pub layer: u32,
    pub surface_rank: u32,
}

/// A frame placed in 3D: where each face lies in the stack, the frame's warnings, and the
/// kernel's geometry.
#[derive(Debug)]
pub struct Frame<G> {
    pub faces: Vec<FrameFace>,
    pub warnings: Vec<String>,
    pub geometry: G,
}

/// Mathematical value of a [`Frame`].
pub struct FrameModel<G> {
    pub faces: Seq<FrameFace>,
    pub warnings: Seq<Seq<char>>,
    pub geometry: G,
}

impl<G> View for Frame<G> {
    type V = FrameModel<G>;

    open spec fn view(&self) -> FrameModel<G> {
        FrameModel { faces: self.faces@, warnings: texts(self.warnings@), geometry: self.geometry }
    }
}

/// A replay of the steps: the frame reached, the latest requested hinge angles and the
/// angles reached (bit patterns of degrees), the replay's warnings, the steps it skipped,
/// whether it gave a best effort and whether it converged, whether the stacking order was
/// derived completely from the geometry, and the kernel's further details.
pub struct Replay<G, D> {
    pub frame: Frame<G>,
    pub targets: Vec<PoseDriver>,
    pub angles: HashMap<EdgeId, u64>,
    pub warnings: Vec<String>,
    pub skipped: Vec<StepId>,
    pub best_effort: bool,
    pub converged: bool,
    pub order_derived: bool,
    pub details: D,
}

/// Mathematical value of a [`Replay`].
pub struct ReplayModel<G, D> {
    pub frame: FrameModel<G>,
    pub targets: Seq<PoseDriver>,
    pub angles: Map<EdgeId, u64>,
    pub warnings: Seq<Seq<char>>,
    pub skipped: Seq<StepId>,
    pub best_effort: bool,
    pub converged: bool,
    pub order_derived: bool,
    pub details: D,
}

impl<G, D> View for Replay<G, D> {
    type V = ReplayModel<G, D>;

    open spec fn view(&self) -> ReplayModel<G, D> {
        ReplayModel {
            frame: self.frame@,
            targets: self.targets@,
            angles: self.angles@,
            warnings: texts(self.warnings@),
            skipped: self.skipped@,
            best_effort: self.best_effort,
            converged: self.converged,
            order_derived: self.order_derived,
            details: self.details,
        }
    }
}

/// The kernel's replay and 3D computations. Each is a function of its arguments alone;
/// the trait names each result with a spec function, and each method returns exactly the
/// named value.
pub trait ReplayKernel: CreaseKernel {
    /// The geometry of a frame.
    type Geometry;
    /// What a replay reports beyond what the library reads.
    type Details;

    /// The replay of the first `up_to` steps of a work with the given faces.
    closed spec fn replay_of(
        &self,
        doc: DocumentModel,
        faces: Seq<FaceModel>,
        up_to: nat,
    ) -> ReplayModel<Self::Geometry, Self::Details> {
        vstd::pervasive::arbitrary()
    }

    /// Whether the steps saved a layer order for the state after the first `up_to` steps.
    closed spec fn saved_order_in(&self, doc: DocumentModel, faces: Seq<FaceModel>, up_to: nat) -> bool {
        vstd::pervasive::arbitrary()
    }

    /// Whether the layers of a frame contradict its mountain and valley folds.
    closed spec fn conflicts_in(
        &self,
        cp: CreasePatternModel,
        faces: Seq<FaceModel>,
        frame: FrameModel<Self::Geometry>,
    ) -> bool {
        vstd::pervasive::arbitrary()
    }

    /// The bottom-to-top order of the faces that the shape of a frame implies, if any.
    closed spec fn derived_order(
        &self,
        cp: CreasePatternModel,
        faces: Seq<FaceModel>,
        frame: FrameModel<Self::Geometry>,
    ) -> Option<Seq<FaceId>> {
        vstd::pervasive::arbitrary()
    }

    /// The stack of the faces and the geometry after `order` is stamped on them.
    closed spec fn stamped(
        &self,
        faces: Seq<FrameFace>,
        geometry: Self::Geometry,
        order: Seq<FaceId>,
    ) -> (Seq<FrameFace>, Self::Geometry) {
        vstd::pervasive::arbitrary()
    }

    /// The pairs of faces of a frame that pass through each other.
    closed spec fn intersections_of(&self, frame: FrameModel<Self::Geometry>) -> Seq<(FaceId, FaceId)> {
        vstd::pervasive::arbitrary()
    }

    /// The replay after its overlaps are corrected keeping `order`.
    closed spec fn overlap_prevented(
        &self,
        cp: CreasePatternModel,
        faces: Seq<FaceModel>,
        replay: ReplayModel<Self::Geometry, Self::Details>,
        order: Seq<FaceId>,
        enabled: bool,
    ) -> ReplayModel<Self::Geometry, Self::Details> {
        vstd::pervasive::arbitrary()
    }

    /// The hinges suspected of causing the given intersections.
    closed spec fn suspects_of(
        &self,
        cp: CreasePatternModel,
        faces: Seq<FaceModel>,
        intersections: Seq<(FaceId, FaceId)>,
        details: Self::Details,
    ) -> Seq<EdgeId> {
        vstd::pervasive::arbitrary()
    }

    /// Whether an angle reached a requested one within the tolerance of a flat fold.
    closed spec fn reached(&self, actual: u64, target: u64) -> bool {
        vstd::pervasive::arbitrary()
    }

    /// Replays the first `up_to` steps of `doc` to the end of the last one.
    fn replay(&self, doc: &Document, faces: &Vec<Face>, up_to: usize) -> (r: Replay<
        Self::Geometry,
        Self::Details,
    >)
        ensures
            r@ == self.replay_of(doc@, faces_model(faces@), up_to as nat),
    ;

    /// Whether the steps saved a layer order for the state after the first `up_to` steps.
    fn has_saved_layer_order(&self, doc: &Document, faces: &Vec<Face>, up_to: usize) -> (r: bool)
        ensures
            r == self.saved_order_in(doc@, faces_model(faces@), up_to as nat),
    ;

    /// Whether the layers of `frame` contradict its mountain and valley folds.
    fn layer_order_conflicts(
        &self,
        cp: &CreasePattern,
        faces: &Vec<Face>,
        frame: &Frame<Self::Geometry>,
    ) -> (r: bool)
        ensures
            r == self.conflicts_in(cp@, faces_model(faces@), frame@),
    ;

    /// The bottom-to-top order of the faces that the shape of `frame` implies, if any.
    fn derive_layer_order(
        &self,
        cp: &CreasePattern,
        faces: &Vec<Face>,
        frame: &Frame<Self::Geometry>,
    ) -> (r: Option<Vec<FaceId>>)
        ensures
            self.derived_order(cp@, faces_model(faces@), frame@) == match r {
                Some(o) => Some(o@),
                None => None::<Seq<FaceId>>,
            },
    ;

    /// Stamps `order`, a complete bottom-to-top order of the faces of a frame, as their
    /// stack.
    fn stamp_surface_order(
        &self,
        faces: &mut Vec<FrameFace>,
        geometry: &mut Self::Geometry,
        order: &Vec<FaceId>,
    )
        ensures
            (final(faces)@, *final(geometry)) == self.stamped(old(faces)@, *old(geometry), order@),
    ;

    /// The pairs of faces of `frame` that pass through each other.
    fn self_intersection_pairs(&self, frame: &Frame<Self::Geometry>) -> (r: Vec<(FaceId, FaceId)>)
        ensures
            r@ == self.intersections_of(frame@),
    ;

    /// Moves the faces of the replayed frame apart where they overlap, keeping `order`
    /// (faces from bottom to top) as the authority on which lies above which; `enabled` is
    /// the user's overlap prevention setting.
    fn prevent_overlap_with_order(
        &self,
        cp: &CreasePattern,
        faces: &Vec<Face>,
        replay: &mut Replay<Self::Geometry, Self::Details>,
        order: &Vec<FaceId>,
        enabled: bool,
    )
        ensures
            final(replay)@ == self.overlap_prevented(
                cp@,
                faces_model(faces@),
                old(replay)@,
                order@,
                enabled,
            ),
    ;

    /// The hinges that may cause the given intersections.
    fn suspect_hinges(
        &self,
        cp: &CreasePattern,
        faces: &Vec<Face>,
        intersections: &Vec<(FaceId, FaceId)>,
        details: &Self::Details,
    ) -> (r: Vec<EdgeId>)
        ensures
            r@ == self.suspects_of(cp@, faces_model(faces@), intersections@, *details),
    ;

    /// Whether the angle `actual` reached the requested angle `target` (bit patterns of
    /// degrees) within the tolerance of a flat fold.
    fn angle_reached(&self, actual: u64, target: u64) -> (r: bool)
        ensures
            r == self.reached(actual, target),
    ;
}

// ---------------------------------------------------------------------------
// Stack of a frame
// ---------------------------------------------------------------------------
/// The stack places of the faces.
pub open spec fn ranks(faces: Seq<FrameFace>) -> Seq<RankedFace> {
    faces.map_values(|f: FrameFace| RankedFace { face: f.face, surface_rank: f.surface_rank })
}

/// The faces with their layers set from the bottom-to-top `order`.
pub open spec fn layered(faces: Seq<FrameFace>, order: Seq<FaceId>) -> Seq<FrameFace> {
    faces.map_values(
        |f: FrameFace| FrameFace { layer: layer_from_order(order, f.face, f.layer), ..f },
    )
}

/// The stack places of the faces of a frame.
pub fn ranks_of(faces: &Vec<FrameFace>) -> (r: Vec<RankedFace>)
    ensures
        r@ == ranks(faces@),
{
    let mut r: Vec<RankedFace> = Vec::new();
    let mut i: usize = 0;
    while i < faces.len()
        invariant
            i <= faces@.len(),
            r@ == ranks(faces@.take(i as int)),
        decreases faces@.len() - i,
    {
        let f = faces[i];
        r.push(RankedFace { face: f.face, surface_rank: f.surface_rank });
        proof {
            assert(ranks(faces@.take(i + 1)) =~= ranks(faces@.take(i as int)).push(
                RankedFace { face: f.face, surface_rank: f.surface_rank },
            ));
        }
        i += 1;
    }
    proof {
        assert(faces@.take(faces@.len() as int) =~= faces@);
    }
    r
}

/// Sets the layers of the faces from a bottom-to-top order.
pub fn set_layers(order: &Vec<FaceId>, faces: &mut Vec<FrameFace>)
    ensures
        final(faces)@ == layered(old(faces)@, order@),
{
    let ghost initial = faces@;
    let mut i: usize = 0;
    while i < faces.len()
        invariant
            faces@.len() == initial.len(),
            i <= faces@.len(),
            forall|m: int| i <= m < faces@.len() ==> faces@[m] == initial[m],
            forall|m: int| 0 <= m < i ==> #[trigger] faces@[m] == layered(initial, order@)[m],
        decreases faces.len() - i,
    {
        let f = faces[i];
        let layer = layer_in_order(order, f.face, f.layer);
        faces.set(i, FrameFace { layer, ..f });
        i += 1;
    }
    proof {
        assert(faces@ =~= layered(initial, order@));
    }
}

/// The frame's faces took their layers from some bottom-to-top order, or kept them.
pub open spec fn relayered(before: Seq<FrameFace>, after: Seq<FrameFace>) -> bool {
    after == before || exists|order: Seq<FaceId>| after == #[trigger] layered(before, order)
}

/// The frame `f` after its layers are corrected: where they contradict its folds and its
/// shape implies an order, the layers come from that order.
pub open spec fn corrected<K: ReplayKernel>(
    kernel: &K,
    cp: CreasePatternModel,
    faces: Seq<FaceModel>,
    f: FrameModel<K::Geometry>,
) -> FrameModel<K::Geometry> {
    if kernel.conflicts_in(cp, faces, f) && kernel.derived_order(cp, faces, f) is Some {
        FrameModel { faces: layered(f.faces, kernel.derived_order(cp, faces, f)->0), ..f }
    } else {
        f
    }
}

/// Where the layers of `frame` contradict its folds and its shape implies an order, takes
/// the layers from that order; the frame is otherwise unchanged.
pub fn correct_layer_order<K: ReplayKernel>(
    kernel: &K,
    cp: &CreasePattern,
    faces: &Vec<Face>,
    frame: &mut Frame<K::Geometry>,
)
    ensures
        final(frame)@ == corrected(kernel, cp@, faces_model(faces@), old(frame)@),
        relayered(old(frame).faces@, final(frame).faces@),
        final(frame).warnings@ == old(frame).warnings@,
        final(frame).geometry == old(frame).geometry,
{
    if kernel.layer_order_conflicts(cp, faces, frame) {
        match kernel.derive_layer_order(cp, faces, frame) {
            Some(order) => {
                let ghost before = frame.faces@;
                set_layers(&order, &mut frame.faces);
                proof {
                    assert(frame.faces@ == layered(before, order@));
                }
            },
            None => {},
        }
    }
}

// ---------------------------------------------------------------------------
// Warnings of a frame
// ---------------------------------------------------------------------------
/// Where the layers of `frame` contradict its folds, warns once with `fold_penetration`
/// and gives that warning; the layers and the shape stay as they are.
pub fn add_layer_order_warning_only<K: ReplayKernel>(
    kernel: &K,
    cp: &CreasePattern,
    faces: &Vec<Face>,
    frame: &mut Frame<K::Geometry>,
    fold_penetration: &String,
) -> (r: Option<String>)
    ensures
        final(frame).faces@ == old(frame).faces@,
        final(frame).geometry == old(frame).geometry,
        r is Some <==> (kernel.conflicts_in(cp@, faces_model(faces@), old(frame)@) && !texts(
            old(frame).warnings@,
        ).contains(fold_penetration@)),
        texts(old(frame).warnings@).contains(fold_penetration@) ==> r is None,
        r is None ==> texts(final(frame).warnings@) == texts(old(frame).warnings@),
        r matches Some(w) ==> w@ == fold_penetration@ && texts(final(frame).warnings@) == texts(
            old(frame).warnings@,
        ).push(fold_penetration@),
{
    if !kernel.layer_order_conflicts(cp, faces, frame) {
        return None;
    }
    if note_penetration(&mut frame.warnings, true, fold_penetration) {
        Some(fold_penetration.clone())
    } else {
        None
    }
}

/// Takes the layers of `frame` from its shape where they contradict its folds, then warns
/// as [`add_layer_order_warning_only`] does.
pub fn add_layer_order_warning<K: ReplayKernel>(
    kernel: &K,
    cp: &CreasePattern,
    faces: &Vec<Face>,
    frame: &mut Frame<K::Geometry>,
    fold_penetration: &String,
) -> (r: Option<String>)
    ensures
        final(frame).faces@ == corrected(kernel, cp@, faces_model(faces@), old(frame)@).faces,
        r is Some <==> (kernel.conflicts_in(
            cp@,
            faces_model(faces@),
            corrected(kernel, cp@, faces_model(faces@), old(frame)@),
        ) && !texts(old(frame).warnings@).contains(fold_penetration@)),
        relayered(old(frame).faces@, final(frame).faces@),
        final(frame).geometry == old(frame).geometry,
        texts(old(frame).warnings@).contains(fold_penetration@) ==> r is None,
        r is None ==> texts(final(frame).warnings@) == texts(old(frame).warnings@),
        r matches Some(w) ==> w@ == fold_penetration@ && texts(final(frame).warnings@) == texts(
            old(frame).warnings@,
        ).push(fold_penetration@),
{
    correct_layer_order(kernel, cp, faces, frame);
    add_layer_order_warning_only(kernel, cp, faces, frame, fold_penetration)
}

/// The warnings after `penetration` is added once where faces intersect.
pub open spec fn with_penetration(ws: Seq<Seq<char>>, intersects: bool, penetration: Seq<char>) -> Seq<
    Seq<char>,
> {
    if intersects && !ws.contains(penetration) {
        ws.push(penetration)
    } else {
        ws
    }
}

/// Adds the penetration warning once to a frame whose faces intersect (the pairs found
/// are `intersections`) and, when `check_layer_order` holds, the layer-order warning of
/// [`add_layer_order_warning`]; gives the warnings added, in order.
pub fn add_penetration_warning_for_intersections<K: ReplayKernel>(
    kernel: &K,
    cp: &CreasePattern,
    faces: &Vec<Face>,
    frame: &mut Frame<K::Geometry>,
    check_layer_order: bool,
    intersections: &Vec<(FaceId, FaceId)>,
    penetration: &String,
    fold_penetration: &String,
) -> (r: Vec<String>)
    ensures
        final(frame).geometry == old(frame).geometry,
        ({
            let ws = texts(old(frame).warnings@);
            let noted = with_penetration(ws, intersections@.len() > 0, penetration@);
            let first = if noted == ws {
                Seq::<Seq<char>>::empty()
            } else {
                seq![penetration@]
            };
            &&& !check_layer_order ==> texts(final(frame).warnings@) == noted && texts(r@) == first
                && final(frame).faces@ == old(frame).faces@
            &&& check_layer_order ==> relayered(old(frame).faces@, final(frame).faces@) && ((
            texts(final(frame).warnings@) == noted && texts(r@) == first) || (!noted.contains(
                fold_penetration@,
            ) && texts(final(frame).warnings@) == noted.push(fold_penetration@) && texts(r@)
                == first.push(fold_penetration@)))
            &&& check_layer_order ==> ({
                let fm = faces_model(faces@);
                let c = corrected(kernel, cp@, fm, FrameModel { warnings: noted, ..old(frame)@ });
                &&& final(frame).faces@ == c.faces
                &&& (texts(final(frame).warnings@) == noted.push(fold_penetration@) <==> (
                kernel.conflicts_in(cp@, fm, c) && !noted.contains(fold_penetration@)))
            })
        }),
{
    let mut added: Vec<String> = Vec::new();
    let ghost ws = texts(frame.warnings@);
    let intersects = intersections.len() > 0;
    if note_penetration(&mut frame.warnings, intersects, penetration) {
        added.push(penetration.clone());
        proof {
            assert(texts(added@) =~= seq![penetration@]);
        }
    } else {
        proof {
            assert(texts(added@) =~= Seq::<Seq<char>>::empty());
        }
    }
    if check_layer_order {
        let ghost mid = added@;
        proof {
            let noted = with_penetration(ws, intersects, penetration@);
            assert(texts(frame.warnings@) =~= noted);
            assert(frame@ == FrameModel { warnings: noted, ..old(frame)@ });
        }
        match add_layer_order_warning(kernel, cp, faces, frame, fold_penetration) {
            Some(w) => {
                added.push(w);
                proof {
                    assert(texts(added@) =~= texts(mid).push(fold_penetration@));
                }
            },
            None => {},
        }
    }
    added
}

/// The warnings of a frame after the penetration warning was added once where faces
/// intersect and, when `check_layer_order` holds, possibly the layer-order warning once,
/// with the warnings `added` in order: `ws` before, `after` after.
pub open spec fn penetration_warned(
    ws: Seq<Seq<char>>,
    after: Seq<Seq<char>>,
    added: Seq<Seq<char>>,
    intersects: bool,
    check_layer_order: bool,
    penetration: Seq<char>,
    fold_penetration: Seq<char>,
) -> bool {
    let noted = with_penetration(ws, intersects, penetration);
    let first = if noted == ws {
        Seq::<Seq<char>>::empty()
    } else {
        seq![penetration]
    };
    ||| after == noted && added == first
    ||| check_layer_order && !noted.contains(fold_penetration) && after == noted.push(fold_penetration)
        && added == first.push(fold_penetration)
}

/// As [`add_penetration_warning_for_intersections`], with the intersections of the frame
/// that the kernel finds.
pub fn add_penetration_warning<K: ReplayKernel>(
    kernel: &K,
    cp: &CreasePattern,
    faces: &Vec<Face>,
    frame: &mut Frame<K::Geometry>,
    check_layer_order: bool,
    penetration: &String,
    fold_penetration: &String,
) -> (r: Vec<String>)
    ensures
        final(frame).geometry == old(frame).geometry,
        !check_layer_order ==> final(frame).faces@ == old(frame).faces@,
        check_layer_order ==> relayered(old(frame).faces@, final(frame).faces@),
        penetration_warned(
            texts(old(frame).warnings@),
            texts(final(frame).warnings@),
            texts(r@),
            kernel.intersections_of(old(frame)@).len() > 0,
            check_layer_order,
            penetration@,
            fold_penetration@,
        ),
{
    let intersections = kernel.self_intersection_pairs(frame);
    let ghost ws = texts(frame.warnings@);
    let r = add_penetration_warning_for_intersections(
        kernel,
        cp,
        faces,
        frame,
        check_layer_order,
        &intersections,
        penetration,
        fold_penetration,
    );
    proof {
        assert(penetration_warned(
            ws,
            texts(frame.warnings@),
            texts(r@),
            intersections@.len() > 0,
            check_layer_order,
            penetration@,
            fold_penetration@,
        ));
    }
    r
}

/// The frame `f` after `prevent`: its layers corrected and the stacking order `canonical`
/// stamped, where there is one.
pub open spec fn placed<K: ReplayKernel>(
    kernel: &K,
    cp: CreasePatternModel,
    faces: Seq<FaceModel>,
    f: FrameModel<K::Geometry>,
    canonical: Option<Seq<FaceId>>,
    prevent: bool,
) -> FrameModel<K::Geometry> {
    if prevent {
        let c = corrected(kernel, cp, faces, f);
        match canonical {
            Some(order) => FrameModel {
                faces: kernel.stamped(c.faces, c.geometry, order).0,
                geometry: kernel.stamped(c.faces, c.geometry, order).1,
                ..c
            },
            None => c,
        }
    } else {
        f
    }
}

/// The frame `f` after the display settings: [`placed`], then, with `detect`, the
/// layer-order warning `fold_penetration` added once where its layers contradict its folds.
pub open spec fn settled<K: ReplayKernel>(
    kernel: &K,
    cp: CreasePatternModel,
    faces: Seq<FaceModel>,
    f: FrameModel<K::Geometry>,
    canonical: Option<Seq<FaceId>>,
    prevent: bool,
    detect: bool,
    fold_penetration: Seq<char>,
) -> FrameModel<K::Geometry> {
    let p = placed(kernel, cp, faces, f, canonical, prevent);
    if detect && kernel.conflicts_in(cp, faces, p) && !p.warnings.contains(fold_penetration) {
        FrameModel { warnings: p.warnings.push(fold_penetration), ..p }
    } else {
        p
    }
}

/// Applies the two display settings to the layers of a frame: `prevent` takes the layers
/// from the shape and stamps the verified `canonical` order; `detect` only warns of a
/// layer order that contradicts the folds, and gives that warning.
pub fn apply_layer_order_display_settings<K: ReplayKernel>(
    kernel: &K,
    cp: &CreasePattern,
    faces: &Vec<Face>,
    frame: &mut Frame<K::Geometry>,
    canonical: &Option<Vec<FaceId>>,
    prevent: bool,
    detect: bool,
    fold_penetration: &String,
) -> (r: Option<String>)
    ensures
        final(frame)@ == settled(
            kernel,
            cp@,
            faces_model(faces@),
            old(frame)@,
            crate::folding::opt_seq(*canonical),
            prevent,
            detect,
            fold_penetration@,
        ),
        r is Some <==> (detect && kernel.conflicts_in(
            cp@,
            faces_model(faces@),
            placed(kernel, cp@, faces_model(faces@), old(frame)@, crate::folding::opt_seq(*canonical), prevent),
        ) && !texts(old(frame).warnings@).contains(fold_penetration@)),
        !prevent ==> final(frame).faces@ == old(frame).faces@ && final(frame).geometry == old(
            frame,
        ).geometry,
        !detect ==> r is None && texts(final(frame).warnings@) == texts(old(frame).warnings@),
        r is None ==> texts(final(frame).warnings@) == texts(old(frame).warnings@),
        r matches Some(w) ==> w@ == fold_penetration@ && !texts(old(frame).warnings@).contains(
            fold_penetration@,
        ) && texts(final(frame).warnings@) == texts(old(frame).warnings@).push(fold_penetration@),
{
    if prevent {
        correct_layer_order(kernel, cp, faces, frame);
        match canonical {
            Some(order) => kernel.stamp_surface_order(&mut frame.faces, &mut frame.geometry, order),
            None => {},
        }
    }
    if detect {
        add_layer_order_warning_only(kernel, cp, faces, frame, fold_penetration)
    } else {
        None
    }
}

/// The stacking order the replay can be trusted with: derived completely from the
/// geometry, and a complete order of the frame's faces.
pub open spec fn authoritative<G, D>(replay: ReplayModel<G, D>) -> bool {
    replay.order_derived && faces_distinct(ranks(replay.frame.faces)) && ranks_complete(
        ranks(replay.frame.faces),
    )
}

/// Corrects the overlaps of the replayed frame keeping its stacking order, only where that
/// order is authoritative; answers whether it did. `enabled` is the user's setting.
pub fn prevent_replay_overlap_if_authoritative<K: ReplayKernel>(
    kernel: &K,
    cp: &CreasePattern,
    faces: &Vec<Face>,
    replay: &mut Replay<K::Geometry, K::Details>,
    enabled: bool,
) -> (r: bool)
    ensures
        r == authoritative(old(replay)@),
        !r ==> *final(replay) == *old(replay),
        r ==> final(replay)@ == kernel.overlap_prevented(
            cp@,
            faces_model(faces@),
            old(replay)@,
            crate::frames::stack_order(ranks(old(replay).frame.faces@)),
            enabled,
        ),
{
    let ranked = ranks_of(&replay.frame.faces);
    let ghost before = *replay;
    match replay_surface_rank_order(replay.order_derived, &ranked) {
        Some(order) => {
            kernel.prevent_overlap_with_order(cp, faces, replay, &order, enabled);
            proof {
                assert(crate::frames::is_stack_order(ranks(before.frame.faces@), order@));
                crate::frames::lemma_stack_order_unique(ranks(before.frame.faces@), order@);
            }
            true
        },
        None => false,
    }
}

// ---------------------------------------------------------------------------
// Flat-fold notice
// ---------------------------------------------------------------------------
/// The pattern the flat-fold check runs on: the lines get their [`requested_kind`].
pub open spec fn requested_model(cp: CreasePatternModel, ds: Seq<PoseDriver>) -> CreasePatternModel {
    CreasePatternModel {
        edges: cp.edges.map_values(|e: Edge| Edge { kind: requested_kind(cp, ds, e), ..e }),
        ..cp
    }
}

/// Whether the flat-requested hinge `e` missed its angle: none was reached, or the one
/// reached (`angles`, bit patterns by edge) is not its latest requested angle.
pub open spec fn flat_target_missed<K: ReplayKernel>(
    kernel: &K,
    ds: Seq<PoseDriver>,
    angles: Map<EdgeId, u64>,
    e: EdgeId,
) -> bool {
    !(angles.contains_key(e) && kernel.reached(angles[e], latest_target(ds, e)->0))
}

/// The vertices of the flat-fold notice: where the hinges asked to fold flat cannot fold
/// flat as a pattern of their own (as the kernel finds on [`requested_model`]), when the
/// paper runs into itself or one of those hinges missed its angle; nothing when no hinge
/// was asked to fold flat.
pub open spec fn flat_notice<K: ReplayKernel>(
    kernel: &K,
    cp: CreasePatternModel,
    ds: Seq<PoseDriver>,
    angles: Map<EdgeId, u64>,
    paper_intersects: bool,
) -> Seq<VertexId> {
    if exists|e: EdgeId| #[trigger] is_flat_hinge(cp, ds, e) && (paper_intersects
        || flat_target_missed(kernel, ds, angles, e)) {
        kernel.violations_of(requested_model(cp, ds))
    } else {
        Seq::empty()
    }
}

/// A hinge with a latest requested angle has a driver.
proof fn lemma_latest_target_driver(ds: Seq<PoseDriver>, e: EdgeId)
    requires
        latest_target(ds, e) is Some,
    ensures
        exists|k: int| 0 <= k < ds.len() && (#[trigger] ds[k]).edge_id == e,
    decreases ds.len(),
{
    if ds.last().edge_id == e {
        assert(ds[ds.len() - 1].edge_id == e);
    } else {
        lemma_latest_target_driver(ds.drop_last(), e);
        let k = choose|k: int| 0 <= k < ds.drop_last().len() && (#[trigger] ds.drop_last()[k]).edge_id == e;
        assert(ds[k].edge_id == e);
    }
}

/// The vertices to point out after a pose that asked for flat folds: where the hinges asked
/// to fold flat (±180°, not the border) cannot fold flat as a pattern of their own, and
/// one of them did not reach its angle (`angles`, bit patterns by edge) or the paper runs
/// into itself. Nothing is pointed out when no hinge was asked to fold flat.
pub fn flat_fold_notice_violations<K: ReplayKernel>(
    kernel: &K,
    cp: &CreasePattern,
    targets: &Vec<PoseDriver>,
    angles: &HashMap<EdgeId, u64>,
    paper_intersects: bool,
) -> (r: Vec<VertexId>)
    ensures
        r@ == flat_notice(kernel, cp@, targets@, angles@, paper_intersects),
        (forall|e: EdgeId| !#[trigger] is_flat_hinge(cp@, targets@, e)) ==> r@.len() == 0,
{
    let hinges = flat_hinges(cp, targets);
    if hinges.len() == 0 {
        proof {
            assert forall|e: EdgeId| !#[trigger] is_flat_hinge(cp@, targets@, e) by {
                if is_flat_hinge(cp@, targets@, e) {
                    lemma_latest_target_driver(targets@, e);
                    let k = choose|k: int| 0 <= k < targets@.len() && (#[trigger] targets@[k]).edge_id == e;
                    assert(is_flat_hinge(cp@, targets@, targets@[k].edge_id));
                }
            }
        }
        return Vec::new();
    }
    proof {
        assert(is_flat_hinge(cp@, targets@, hinges@[0].0));
    }
    let requested = requested_pattern(cp, targets);
    proof {
        assert(requested@.edges =~= requested_model(cp@, targets@).edges);
        assert(requested@ == requested_model(cp@, targets@));
    }
    let violations = kernel.local_violations(&requested);
    if violations.len() == 0 {
        proof {
            assert(violations@ =~= Seq::<VertexId>::empty());
        }
        return violations;
    }
    let mut reached: Vec<Option<bool>> = Vec::new();
    let mut i: usize = 0;
    while i < hinges.len()
        invariant
            i <= hinges@.len(),
            reached@.len() == i,
            forall|k: int| 0 <= k < i ==> #[trigger] reached@[k] == (if angles@.contains_key(hinges@[k].0) {
                Some(kernel.reached(angles@[hinges@[k].0], hinges@[k].1))
            } else {
                None
            }),
        decreases hinges@.len() - i,
    {
        let (hinge, target) = hinges[i];
        match angles.get(&hinge) {
            Some(actual) => reached.push(Some(kernel.angle_reached(*actual, target))),
            None => reached.push(None),
        }
        i += 1;
    }
    proof {
        let pi = paper_intersects;
        let h0 = hinges@[0].0;
        if notice_owed(reached@, pi) {
            if pi {
                assert(is_flat_hinge(cp@, targets@, h0) && (pi || flat_target_missed(kernel, targets@, angles@, h0)));
            } else {
                let k = choose|k: int| 0 <= k < reached@.len() && #[trigger] reached@[k] != Some(true);
                let e = hinges@[k].0;
                assert(is_flat_hinge(cp@, targets@, e));
                assert(flat_target_missed(kernel, targets@, angles@, e));
            }
        } else {
            assert forall|e: EdgeId| #[trigger] is_flat_hinge(cp@, targets@, e) implies !(pi
                || flat_target_missed(kernel, targets@, angles@, e)) by {
                lemma_latest_target_driver(targets@, e);
                let j = choose|j: int| 0 <= j < targets@.len() && (#[trigger] targets@[j]).edge_id == e;
                assert(is_flat_hinge(cp@, targets@, targets@[j].edge_id));
                let k = choose|k: int| 0 <= k < hinges@.len() && (#[trigger] hinges@[k]).0 == targets@[j].edge_id;
                assert(reached@[k] == Some(true));
            }
        }
    }
    flat_fold_notice(violations, &reached, paper_intersects)
}

/// Whether the flat-fold notice is owed, given for each hinge asked to fold flat whether
/// it reached its angle (nothing where no angle was reached at all): the paper runs into
/// itself, or some hinge did not reach its angle.
pub open spec fn notice_owed(reached: Seq<Option<bool>>, paper_intersects: bool) -> bool {
    paper_intersects || exists|i: int| 0 <= i < reached.len() && #[trigger] reached[i] != Some(true)
}

/// The flat-fold notice given the vertices where the flat-requested hinges cannot fold
/// flat and, for each such hinge, whether it reached its angle: those vertices where the
/// notice is owed, nothing otherwise.
pub fn flat_fold_notice(violations: Vec<VertexId>, reached: &Vec<Option<bool>>, paper_intersects: bool) -> (r: Vec<
    VertexId,
>)
    ensures
        r@ == (if notice_owed(reached@, paper_intersects) {
            violations@
        } else {
            Seq::<VertexId>::empty()
        }),
{
    let mut missed = false;
    let mut i: usize = 0;
    while i < reached.len()
        invariant
            i <= reached@.len(),
            missed <==> exists|k: int| 0 <= k < i && #[trigger] reached@[k] != Some(true),
        decreases reached@.len() - i,
    {
        match reached[i] {
            Some(true) => {},
            _ => {
                assert(reached@[i as int] != Some(true));
                missed = true;
            },
        }
        i += 1;
    }
    if missed || paper_intersects {
        violations
    } else {
        Vec::new()
    }
}

/// The flat-fold notice of a replay, the paper running into itself where the replayed
/// frame has intersecting faces.
pub fn replay_flat_fold_notice_violations<K: ReplayKernel>(
    kernel: &K,
    cp: &CreasePattern,
    targets: &Vec<PoseDriver>,
    angles: &HashMap<EdgeId, u64>,
    intersections: &Vec<(FaceId, FaceId)>,
) -> (r: Vec<VertexId>)
    ensures
        r@ == flat_notice(kernel, cp@, targets@, angles@, intersections@.len() > 0),
        (forall|e: EdgeId| !#[trigger] is_flat_hinge(cp@, targets@, e)) ==> r@.len() == 0,
{
    flat_fold_notice_violations(kernel, cp, targets, angles, intersections.len() > 0)
}

// ---------------------------------------------------------------------------
// The view with its replay
// ---------------------------------------------------------------------------
/// A view of the work with the replay of its steps: the frame reached (none when there is
/// no step), the replay's further details, the latest requested and the reached hinge
/// angles, the skipped steps, the hinges suspected of an intersection, the flat-fold
/// notice, whether faces were found to intersect, and whether the replay gave a best
/// effort and converged.
#[derive(Debug)]
pub struct ReplayedView<G, D> {
    pub view: DocumentView,
    pub frame: Option<Frame<G>>,
    pub details: Option<D>,
    pub targets: Vec<PoseDriver>,
    pub angles: HashMap<EdgeId, u64>,
    pub skipped: Vec<StepId>,
    pub suspect_hinges: Vec<EdgeId>,
    pub flat_fold_violations: Vec<VertexId>,
    pub contact_detected: bool,
    pub best_effort: bool,
    pub converged: bool,
}

/// Neither message is left once both are filtered out.
pub proof fn lemma_without_messages_free(ws: Seq<Seq<char>>, a: Seq<char>, b: Seq<char>)
    ensures
        !without_messages(ws, a, b).contains(a),
        !without_messages(ws, a, b).contains(b),
    decreases ws.len(),
{
    if ws.len() > 0 {
        lemma_without_messages_free(ws.drop_last(), a, b);
        let rest = without_messages(ws.drop_last(), a, b);
        if !(ws.last() == a || ws.last() == b) {
            assert forall|m: Seq<char>| rest.push(ws.last()).contains(m) implies rest.contains(m) || m
                == ws.last() by {
                let k = choose|k: int| 0 <= k < rest.push(ws.last()).len() && rest.push(ws.last())[k] == m;
                if k < rest.len() {
                    assert(rest[k] == m);
                }
            }
        }
    }
}

/// The warnings shown with the view: with penetration detection off, neither penetration
/// message.
pub open spec fn shown(ws: Seq<Seq<char>>, detect: bool, penetration: Seq<char>, fold_penetration: Seq<
    char,
>) -> Seq<Seq<char>> {
    if detect {
        ws
    } else {
        without_messages(ws, penetration, fold_penetration)
    }
}

/// The kernel's replay of all the steps of `view`, with the display settings applied to
/// its frame (the layers corrected and the verified stacking order stamped with overlap
/// prevention on, the layer-order warning with penetration detection on) where the steps
/// saved no layer order.
pub open spec fn settled_replay<K: ReplayKernel>(
    kernel: &K,
    view: DocumentView,
    fold_penetration: Seq<char>,
) -> ReplayModel<K::Geometry, K::Details> {
    let doc = view.doc@;
    let fm = faces_model(view.faces@);
    let n = doc.sequence.len();
    let rp = kernel.replay_of(doc, fm, n);
    let canonical = if authoritative(rp) {
        Some(crate::frames::stack_order(ranks(rp.frame.faces)))
    } else {
        None
    };
    if kernel.saved_order_in(doc, fm, n) {
        rp
    } else {
        ReplayModel {
            frame: settled(
                kernel,
                doc.cp,
                fm,
                rp.frame,
                canonical,
                doc.display.overlap_prevention_enabled,
                doc.display.penetration_prevention_enabled,
                fold_penetration,
            ),
            ..rp
        }
    }
}

/// The intersections looked for in the settled frame: none with penetration detection
/// off.
pub open spec fn found_intersections<K: ReplayKernel>(
    kernel: &K,
    view: DocumentView,
    fold_penetration: Seq<char>,
) -> Seq<(FaceId, FaceId)> {
    if view.doc@.display.penetration_prevention_enabled {
        kernel.intersections_of(settled_replay(kernel, view, fold_penetration).frame)
    } else {
        Seq::empty()
    }
}

/// The settled replay with its overlaps corrected in its stacking order, where that order
/// is authoritative.
pub open spec fn corrected_replay<K: ReplayKernel>(
    kernel: &K,
    view: DocumentView,
    fold_penetration: Seq<char>,
) -> ReplayModel<K::Geometry, K::Details> {
    let mid = settled_replay(kernel, view, fold_penetration);
    if authoritative(mid) {
        kernel.overlap_prevented(
            view.doc@.cp,
            faces_model(view.faces@),
            mid,
            crate::frames::stack_order(ranks(mid.frame.faces)),
            view.doc@.display.overlap_prevention_enabled,
        )
    } else {
        mid
    }
}

/// Attaches to `view` the replay of all its steps. Without steps there is nothing to
/// replay and the view is returned as it is. Otherwise the kernel replays the steps; where
/// the steps saved no layer order, the display settings are applied to the layers (with
/// the verified stacking order); intersections are looked for only with penetration
/// detection on; the overlaps are corrected only where the stacking order is
/// authoritative; the flat-fold notice and the suspected hinges follow from the
/// intersections; the penetration warnings are added once each to the replay's warnings;
/// and the view's warnings are followed by the replay's, both without the penetration
/// messages when detection is off.
pub fn attach_replay<K: ReplayKernel>(
    kernel: &K,
    view: DocumentView,
    penetration: &String,
    fold_penetration: &String,
) -> (r: ReplayedView<K::Geometry, K::Details>)
    ensures
        r.view.doc == view.doc,
        r.view.step_creases == view.step_creases,
        r.view.faces == view.faces,
        r.view.violations == view.violations,
        r.view.fold_target_info == view.fold_target_info,
        r.contact_detected ==> view.doc.display.penetration_prevention_enabled,
        view.doc.sequence@.len() > 0 ==> ({
            let after = corrected_replay(kernel, view, fold_penetration@);
            let found = found_intersections(kernel, view, fold_penetration@);
            &&& r.targets@ == after.targets
            &&& r.angles@ == after.angles
            &&& r.skipped@ == after.skipped
            &&& r.best_effort == after.best_effort
            &&& r.converged == after.converged
            &&& r.details == Some(after.details)
            &&& (r.frame matches Some(f) && f.faces@ == after.frame.faces && f.geometry
                == after.frame.geometry)
            &&& r.contact_detected == (found.len() > 0)
            &&& r.suspect_hinges@ == kernel.suspects_of(
                view.doc@.cp,
                faces_model(view.faces@),
                found,
                after.details,
            )
            &&& r.flat_fold_violations@ == flat_notice(
                kernel,
                view.doc@.cp,
                after.targets,
                after.angles,
                found.len() > 0,
            )
        }),
        view.doc.sequence@.len() == 0 ==> r.view == view && r.frame is None && !r.contact_detected
            && r.flat_fold_violations@.len() == 0 && r.skipped@.len() == 0 && r.details is None
            && r.targets@.len() == 0 && r.angles@ == Map::<EdgeId, u64>::empty()
            && r.suspect_hinges@.len() == 0 && !r.best_effort && r.converged,
        view.doc.sequence@.len() > 0 ==> r.frame is Some && ({
            let detect = view.doc.display.penetration_prevention_enabled;
            let first = shown(texts(view.warnings@), detect, penetration@, fold_penetration@);
            &&& texts(r.view.warnings@).subrange(0, first.len() as int) == first
            &&& !detect ==> !texts(r.view.warnings@).contains(penetration@) && !texts(
                r.view.warnings@,
            ).contains(fold_penetration@)
            &&& !detect ==> (r.frame matches Some(f) && !texts(f.warnings@).contains(penetration@)
                && !texts(f.warnings@).contains(fold_penetration@))
        }),
{
    if view.doc.sequence.len() == 0 {
        return ReplayedView {
            view,
            frame: None,
            details: None,
            targets: Vec::new(),
            angles: HashMap::new(),
            skipped: Vec::new(),
            suspect_hinges: Vec::new(),
            flat_fold_violations: Vec::new(),
            contact_detected: false,
            best_effort: false,
            converged: true,
        };
    }
    let ghost view_before = view;
    let DocumentView { doc, step_creases, faces, warnings: view_warnings, violations, fold_target_info } =
        view;
    let up_to = doc.sequence.len();
    let detect = doc.display.penetration_prevention_enabled;
    let overlap = doc.display.overlap_prevention_enabled;
    let mut replayed = kernel.replay(&doc, &faces, up_to);
    let saved = kernel.has_saved_layer_order(&doc, &faces, up_to);
    let ranked = ranks_of(&replayed.frame.faces);
    let canonical = replay_surface_rank_order(replayed.order_derived, &ranked);
    proof {
        if canonical is Some {
            let order = canonical->Some_0;
            assert(crate::frames::is_stack_order(ranked@, order@));
            crate::frames::lemma_stack_order_unique(ranked@, order@);
        }
        assert(crate::folding::opt_seq(canonical) == (if authoritative(replayed@) {
            Some(crate::frames::stack_order(ranks(replayed@.frame.faces)))
        } else {
            None
        }));
    }
    let mut penetration_warnings: Vec<String> = Vec::new();
    if !saved {
        match apply_layer_order_display_settings(
            kernel,
            &doc.cp,
            &faces,
            &mut replayed.frame,
            &canonical,
            overlap,
            detect,
            fold_penetration,
        ) {
            Some(w) => penetration_warnings.push(w),
            None => {},
        }
    }
    let intersections: Vec<(FaceId, FaceId)> = if detect {
        kernel.self_intersection_pairs(&replayed.frame)
    } else {
        Vec::new()
    };
    let contact_detected = intersections.len() > 0;
    let ghost found = intersections@;
    proof {
        assert(replayed@ == settled_replay(kernel, view_before, fold_penetration@));
        assert(found == found_intersections(kernel, view_before, fold_penetration@));
    }
    prevent_replay_overlap_if_authoritative(kernel, &doc.cp, &faces, &mut replayed, overlap);
    let flat_fold_violations = replay_flat_fold_notice_violations(
        kernel,
        &doc.cp,
        &replayed.targets,
        &replayed.angles,
        &intersections,
    );
    let suspect_hinges = kernel.suspect_hinges(&doc.cp, &faces, &intersections, &replayed.details);
    let more = add_penetration_warning_for_intersections(
        kernel,
        &doc.cp,
        &faces,
        &mut replayed.frame,
        false,
        &intersections,
        penetration,
        fold_penetration,
    );
    crate::store::append_messages(&mut penetration_warnings, &more);
    let ghost details0 = replayed.details;
    let ghost targets0 = replayed.targets;
    let ghost angles0 = replayed.angles;
    let ghost frame0 = replayed.frame;
    let ghost kept0 = replayed@;
    let mut i: usize = 0;
    while i < penetration_warnings.len()
        invariant
            i <= penetration_warnings@.len(),
            replayed.details == details0,
            replayed.targets == targets0,
            replayed.angles == angles0,
            replayed.frame == frame0,
            replayed@.skipped == kept0.skipped,
            replayed.best_effort == kept0.best_effort,
            replayed.converged == kept0.converged,
        decreases penetration_warnings@.len() - i,
    {
        note_penetration(&mut replayed.warnings, true, &penetration_warnings[i]);
        i += 1;
    }
    let Replay {
        frame: mut frame,
        targets,
        angles,
        warnings: mut replay_warnings,
        skipped,
        best_effort,
        converged,
        order_derived: _,
        details,
    } = replayed;
    let mut warnings = view_warnings;
    let ghost first = shown(texts(warnings@), detect, penetration@, fold_penetration@);
    let ghost vw0 = texts(warnings@);
    let ghost rw0 = texts(replay_warnings@);
    let ghost fw0 = texts(frame.warnings@);
    filter_penetration_warnings(&mut warnings, detect, penetration, fold_penetration);
    filter_penetration_warnings(&mut replay_warnings, detect, penetration, fold_penetration);
    filter_penetration_warnings(&mut frame.warnings, detect, penetration, fold_penetration);
    let ghost kept = texts(warnings@);
    let ghost tail = texts(replay_warnings@);
    crate::store::append_messages(&mut warnings, &replay_warnings);
    proof {
        assert(texts(warnings@) == kept + tail);
        assert(texts(warnings@).subrange(0, first.len() as int) =~= first);
        if !detect {
            let ghost a = penetration@;
            let ghost b = fold_penetration@;
            lemma_without_messages_free(vw0, a, b);
            lemma_without_messages_free(rw0, a, b);
            lemma_without_messages_free(fw0, a, b);
            assert(!kept.contains(a) && !kept.contains(b));
            assert(!tail.contains(a) && !tail.contains(b));
            assert forall|m: Seq<char>| (kept + tail).contains(m) implies kept.contains(m) || tail.contains(m) by {
                let k = choose|k: int| 0 <= k < (kept + tail).len() && (kept + tail)[k] == m;
                if k < kept.len() {
                    assert(kept[k] == m);
                } else {
                    assert(tail[k - kept.len()] == m);
                }
            }
        }
    }
    let r = ReplayedView {
        view: DocumentView { doc, step_creases, faces, warnings, violations, fold_target_info },
        frame: Some(frame),
        details: Some(details),
        targets,
        angles,
        skipped,
        suspect_hinges,
        flat_fold_violations,
        contact_detected,
        best_effort,
        converged,
    };
    r
}

} // verus!

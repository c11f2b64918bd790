//! The check that a crease put on the top sheet survives a replay from scratch: the
//! replayed frame must hold exactly the faces of the paper, every vertex of the pose
//! must come back, and none may have moved.
//!
//! How far a replayed point lies from where it should be is a floating-point distance;
//! it is measured outside this library, for the point pairs that [`drift_pairs`] lists,
//! and handed back as a [`Drift`] for each.
use vstd::prelude::*;
use vstd::string::*;

use crate::model::{faces_model, Face, FaceId, FaceModel, StepId, VertexId};
use crate::surface::{last_entry, MaterialVertex};

verus! {

/// A point of a solved frame (bit patterns of its three coordinates).
#[derive(Clone, Copy, Debug, PartialEq, Eq, Structural)]
pub struct Point3 {
    pub x_bits: u64,
    pub y_bits: u64,
    pub z_bits: u64,
}

/// A face of a replayed frame: its identifier and its polygon.
#[derive(Debug, PartialEq)]
pub struct SpatialFace {
    pub face: FaceId,
    pub polygon: Vec<Point3>,
}

/// Mathematical value of a [`SpatialFace`].
pub struct SpatialFaceModel {
    pub face: FaceId,
    pub polygon: Seq<Point3>,
}

impl View for SpatialFace {
    type V = SpatialFaceModel;

    open spec fn view(&self) -> SpatialFaceModel {
        SpatialFaceModel { face: self.face, polygon: self.polygon@ }
    }
}

/// The models of the faces of a frame.
pub open spec fn spatial_model(fs: Seq<SpatialFace>) -> Seq<SpatialFaceModel> {
    fs.map_values(|f: SpatialFace| f@)
}

/// What a replay from scratch gave back.
#[derive(Debug)]
pub struct ColdReplay {
    /// The steps the replay could not apply.
    pub skipped: Vec<StepId>,
    pub converged: bool,
    pub best_effort: bool,
    pub faces: Vec<SpatialFace>,
}

/// How far a replayed point lies from the position it should have.
#[derive(Clone, Copy, Debug, PartialEq, Eq, Structural)]
pub enum Drift {
    /// The distance is not a finite number.
    NonFinite,
    /// Within the tolerance.
    Within,
    /// Beyond the tolerance.
    Beyond,
}

// ---------------------------------------------------------------------------
// Messages
// ---------------------------------------------------------------------------
pub open spec fn msg_steps_skipped() -> Seq<char> {
    "保存した折った形と折り目を読み直せないため、変更しませんでした。"@
}

pub open spec fn msg_not_converged() -> Seq<char> {
    "保存した3Dの形を最後まで読み直せないため、変更しませんでした。"@
}

pub open spec fn msg_face_count() -> Seq<char> {
    "保存した3Dの紙面が過不足なく揃わないため、変更しませんでした。"@
}

pub open spec fn msg_face_repeated() -> Seq<char> {
    "保存した3Dの紙面が重複しているため、変更しませんでした。"@
}

pub open spec fn msg_face_unreadable() -> Seq<char> {
    "保存した3Dの紙面を読み直せないため、変更しませんでした。"@
}

pub open spec fn msg_direct_missing() -> Seq<char> {
    "折り目を付けた直後の3Dの形を確認できないため、変更しませんでした。"@
}

pub open spec fn msg_direct_moved() -> Seq<char> {
    "折り目を付ける処理で3Dの形が動いたため、変更しませんでした。"@
}

pub open spec fn msg_not_finite() -> Seq<char> {
    "保存した3Dの形を有限な位置で読み直せないため、変更しませんでした。"@
}

pub open spec fn msg_faces_differ() -> Seq<char> {
    "保存した3Dの紙面が元の紙と一致しないため、変更しませんでした。"@
}

pub open spec fn msg_vertices_missing() -> Seq<char> {
    "保存した3Dの形に元の紙の点が揃わないため、変更しませんでした。"@
}

pub open spec fn msg_vertex_moved() -> Seq<char> {
    "保存した3Dの形で元の紙の点が動いたため、変更しませんでした。"@
}

// ---------------------------------------------------------------------------
// Specification
// ---------------------------------------------------------------------------
/// The first face of `fs` with identifier `id`.
pub open spec fn first_face(fs: Seq<FaceModel>, id: FaceId) -> Option<FaceModel>
    decreases fs.len(),
{
    if fs.len() == 0 {
        None
    } else if fs[0].id == id {
        Some(fs[0])
    } else {
        first_face(fs.drop_first(), id)
    }
}

/// The position of a vertex of the pose, as a point.
pub open spec fn position(v: MaterialVertex) -> Point3 {
    Point3 { x_bits: v.x_bits, y_bits: v.y_bits, z_bits: v.z_bits }
}

/// No two faces share an identifier.
pub open spec fn face_ids_distinct(fs: Seq<FaceModel>) -> bool {
    forall|i: int, j: int| 0 <= i < j < fs.len() ==> #[trigger] fs[i].id != #[trigger] fs[j].id
}

/// The point pair compared at point `j` of the replayed face `sf`: the replayed point and
/// where the pose has its vertex, when the face is one of the paper's with as many
/// corners and the pose has that vertex.
pub open spec fn pair_at(
    pose: Seq<MaterialVertex>,
    material: Seq<FaceModel>,
    sf: SpatialFaceModel,
    j: int,
) -> Option<(Point3, Point3)> {
    match first_face(material, sf.face) {
        Some(mf) => if mf.vertices.len() == sf.polygon.len() {
            match last_entry(pose, mf.vertices[j]) {
                Some(e) => Some((sf.polygon[j], position(e))),
                None => None,
            }
        } else {
            None
        },
        None => None,
    }
}

/// The check along the corners of one face, from corner `j` on, with the vertices seen
/// so far and whether one has drifted beyond the tolerance.
pub open spec fn scan_points(
    pose: Seq<MaterialVertex>,
    direct: Seq<MaterialVertex>,
    corners: Seq<VertexId>,
    row: Seq<Drift>,
    j: int,
    seen: Seq<VertexId>,
    beyond: bool,
) -> Result<(Seq<VertexId>, bool), Seq<char>>
    decreases corners.len() - j,
{
    if j < 0 || j >= corners.len() {
        Ok((seen, beyond))
    } else {
        let v = corners[j];
        match last_entry(pose, v) {
            None => scan_points(pose, direct, corners, row, j + 1, seen, beyond),
            Some(e) => match last_entry(direct, v) {
                None => Err(msg_direct_missing()),
                Some(d) => if position(d) != position(e) {
                    Err(msg_direct_moved())
                } else if row[j] == Drift::NonFinite {
                    Err(msg_not_finite())
                } else {
                    scan_points(
                        pose,
                        direct,
                        corners,
                        row,
                        j + 1,
                        seen.push(v),
                        beyond || row[j] == Drift::Beyond,
                    )
                },
            },
        }
    }
}

/// The check along the replayed faces, from face `i` on, with the faces and vertices
/// seen so far and whether a vertex has drifted beyond the tolerance.
pub open spec fn scan_faces(
    pose: Seq<MaterialVertex>,
    direct: Seq<MaterialVertex>,
    material: Seq<FaceModel>,
    frame: Seq<SpatialFaceModel>,
    drift: Seq<Seq<Drift>>,
    i: int,
    seen_faces: Seq<FaceId>,
    seen: Seq<VertexId>,
    beyond: bool,
) -> Result<(Seq<FaceId>, Seq<VertexId>, bool), Seq<char>>
    decreases frame.len() - i,
{
    if i < 0 || i >= frame.len() {
        Ok((seen_faces, seen, beyond))
    } else {
        let sf = frame[i];
        if seen_faces.contains(sf.face) {
            Err(msg_face_repeated())
        } else {
            match first_face(material, sf.face) {
                None => Err(msg_face_unreadable()),
                Some(mf) => if mf.vertices.len() != sf.polygon.len() {
                    Err(msg_face_unreadable())
                } else {
                    match scan_points(pose, direct, mf.vertices, drift[i], 0, seen, beyond) {
                        Err(e) => Err(e),
                        Ok(r) => scan_faces(
                            pose,
                            direct,
                            material,
                            frame,
                            drift,
                            i + 1,
                            seen_faces.push(sf.face),
                            r.0,
                            r.1,
                        ),
                    }
                },
            }
        }
    }
}

/// What the check answers once the faces have been scanned.
pub open spec fn finish(
    pose: Seq<MaterialVertex>,
    material: Seq<FaceModel>,
    scanned: Result<(Seq<FaceId>, Seq<VertexId>, bool), Seq<char>>,
) -> Result<(), Seq<char>> {
    match scanned {
        Err(e) => Err(e),
        Ok(r) => if (exists|k: int| 0 <= k < material.len() && !r.0.contains(#[trigger] material[k].id))
            || (exists|k: int|
            0 <= k < r.0.len() && !(exists|m: int|
                0 <= m < material.len() && material[m].id == #[trigger] r.0[k])) {
            Err(msg_faces_differ())
        } else if exists|k: int| 0 <= k < pose.len() && !r.1.contains(#[trigger] pose[k].vertex) {
            Err(msg_vertices_missing())
        } else if r.2 {
            Err(msg_vertex_moved())
        } else {
            Ok(())
        },
    }
}

/// The scan of the faces after face `i`, given the outcome of the scan of its corners.
pub open spec fn continue_faces(
    pose: Seq<MaterialVertex>,
    direct: Seq<MaterialVertex>,
    material: Seq<FaceModel>,
    frame: Seq<SpatialFaceModel>,
    drift: Seq<Seq<Drift>>,
    i: int,
    seen_faces: Seq<FaceId>,
    corners: Result<(Seq<VertexId>, bool), Seq<char>>,
) -> Result<(Seq<FaceId>, Seq<VertexId>, bool), Seq<char>> {
    match corners {
        Err(e) => Err(e),
        Ok(r) => scan_faces(
            pose,
            direct,
            material,
            frame,
            drift,
            i + 1,
            seen_faces.push(frame[i].face),
            r.0,
            r.1,
        ),
    }
}

/// What the check answers.
pub open spec fn cold_verdict(
    pose: Seq<MaterialVertex>,
    direct: Seq<MaterialVertex>,
    inserted: Seq<StepId>,
    material: Seq<FaceModel>,
    skipped: Seq<StepId>,
    converged: bool,
    best_effort: bool,
    frame: Seq<SpatialFaceModel>,
    drift: Seq<Seq<Drift>>,
) -> Result<(), Seq<char>> {
    if exists|k: int| 0 <= k < skipped.len() && inserted.contains(#[trigger] skipped[k]) {
        Err(msg_steps_skipped())
    } else if !converged || best_effort {
        Err(msg_not_converged())
    } else if !face_ids_distinct(material) || frame.len() != material.len() {
        Err(msg_face_count())
    } else {
        finish(pose, material, scan_faces(pose, direct, material, frame, drift, 0, seq![], seq![], false))
    }
}

// ---------------------------------------------------------------------------
// Implementation
// ---------------------------------------------------------------------------
fn contains_id(v: &Vec<u32>, x: u32) -> (r: bool)
    ensures
        r == v@.contains(x),
{
    let mut k: usize = 0;
    while k < v.len()
        invariant
            k <= v.len(),
            forall|m: int| 0 <= m < k ==> v@[m] != x,
        decreases v.len() - k,
    {
        if v[k] == x {
            assert(v@[k as int] == x);
            return true;
        }
        k += 1;
    }
    false
}

fn lookup_last(vs: &Vec<MaterialVertex>, id: VertexId) -> (r: Option<MaterialVertex>)
    ensures
        r == last_entry(vs@, id),
{
    let mut k: usize = vs.len();
    proof {
        assert(vs@.take(k as int) =~= vs@);
    }
    while k > 0
        invariant
            k <= vs.len(),
            last_entry(vs@, id) == last_entry(vs@.take(k as int), id),
        decreases k,
    {
        let v = vs[k - 1];
        proof {
            assert(vs@.take(k as int).drop_last() =~= vs@.take(k - 1));
        }
        if v.vertex == id {
            return Some(v);
        }
        k -= 1;
    }
    None
}

fn find_face(faces: &Vec<Face>, id: FaceId) -> (r: Option<usize>)
    ensures
        r matches Some(k) ==> k < faces@.len() && first_face(faces_model(faces@), id) == Some(
            faces@[k as int]@,
        ),
        r is None ==> first_face(faces_model(faces@), id) is None,
{
    let ghost fm = faces_model(faces@);
    let mut k: usize = 0;
    proof {
        assert(fm.subrange(0, fm.len() as int) =~= fm);
    }
    while k < faces.len()
        invariant
            fm == faces_model(faces@),
            k <= faces.len(),
            first_face(fm, id) == first_face(fm.subrange(k as int, fm.len() as int), id),
        decreases faces.len() - k,
    {
        proof {
            assert(fm.subrange(k as int, fm.len() as int).drop_first() =~= fm.subrange(
                k + 1,
                fm.len() as int,
            ));
        }
        if faces[k].id == id {
            return Some(k);
        }
        k += 1;
    }
    None
}

fn ids_distinct(faces: &Vec<Face>) -> (r: bool)
    ensures
        r == face_ids_distinct(faces_model(faces@)),
{
    let ghost fm = faces_model(faces@);
    let n = faces.len();
    let mut i: usize = 0;
    while i < n
        invariant
            fm == faces_model(faces@),
            n == faces@.len(),
            i <= n,
            forall|a: int, b: int| 0 <= a < b < n && a < i ==> #[trigger] fm[a].id != #[trigger] fm[b].id,
        decreases n - i,
    {
        let mut j: usize = i + 1;
        while j < n
            invariant
                fm == faces_model(faces@),
                n == faces@.len(),
                i < j <= n,
                forall|a: int, b: int| 0 <= a < b < n && a < i ==> #[trigger] fm[a].id != #[trigger] fm[b].id,
                forall|b: int| i < b < j ==> fm[i as int].id != #[trigger] fm[b].id,
            decreases n - j,
        {
            if faces[i].id == faces[j].id {
                proof {
                    assert(fm[i as int].id == fm[j as int].id);
                }
                return false;
            }
            j += 1;
        }
        i += 1;
    }
    true
}

/// The point pairs whose distance the check needs: for each point of each replayed face,
/// the replayed point and the position the pose has for its vertex (see [`pair_at`]).
pub fn drift_pairs(pose: &Vec<MaterialVertex>, material: &Vec<Face>, frame: &Vec<SpatialFace>) -> (r:
    Vec<Vec<Option<(Point3, Point3)>>>)
    ensures
        r@.len() == frame@.len(),
        forall|i: int|
            0 <= i < frame@.len() ==> (#[trigger] r@[i])@.len() == frame@[i].polygon@.len(),
        forall|i: int, j: int|
            0 <= i < frame@.len() && 0 <= j < frame@[i].polygon@.len() ==> #[trigger] r@[i]@[j]
                == pair_at(pose@, faces_model(material@), frame@[i]@, j),
{
    let mut out: Vec<Vec<Option<(Point3, Point3)>>> = Vec::new();
    let mut i: usize = 0;
    while i < frame.len()
        invariant
            i <= frame.len(),
            out@.len() == i,
            forall|a: int| 0 <= a < i ==> (#[trigger] out@[a])@.len() == frame@[a].polygon@.len(),
            forall|a: int, j: int|
                0 <= a < i && 0 <= j < frame@[a].polygon@.len() ==> #[trigger] out@[a]@[j]
                    == pair_at(pose@, faces_model(material@), frame@[a]@, j),
        decreases frame.len() - i,
    {
        let sf = &frame[i];
        let mut row: Vec<Option<(Point3, Point3)>> = Vec::new();
        let found = find_face(material, sf.face);
        let mut j: usize = 0;
        while j < sf.polygon.len()
            invariant
                i < frame.len(),
                sf == &frame@[i as int],
                found matches Some(k) ==> k < material@.len() && first_face(
                    faces_model(material@),
                    sf.face,
                ) == Some(material@[k as int]@),
                found is None ==> first_face(faces_model(material@), sf.face) is None,
                j <= sf.polygon@.len(),
                row@.len() == j,
                forall|m: int| 0 <= m < j ==> row@[m] == pair_at(pose@, faces_model(material@), sf@, m),
            decreases sf.polygon.len() - j,
        {
            let entry = match found {
                Some(k) => {
                    let mf = &material[k];
                    if mf.vertices.len() == sf.polygon.len() {
                        match lookup_last(pose, mf.vertices[j]) {
                            Some(e) => Some(
                                (
                                    sf.polygon[j],
                                    Point3 { x_bits: e.x_bits, y_bits: e.y_bits, z_bits: e.z_bits },
                                ),
                            ),
                            None => None,
                        }
                    } else {
                        None
                    }
                },
                None => None,
            };
            row.push(entry);
            j += 1;
        }
        out.push(row);
        i += 1;
    }
    out
}

/// The verdict seen through the text of its message.
pub open spec fn verdict_view(r: Result<(), String>) -> Result<(), Seq<char>> {
    match r {
        Ok(()) => Ok(()),
        Err(m) => Err(m@),
    }
}

/// Checks a replay from scratch of the work with a freshly creased top sheet, given the
/// pose before the crease, the vertices right after it (`direct`), the steps just
/// inserted, the faces of the paper, the replay and how far each compared point drifted
/// (`drift[i][j]` for point `j` of replayed face `i`, measured on the pairs
/// [`drift_pairs`] gives).
pub fn verify_cold_crease_only_replay(
    pose: &Vec<MaterialVertex>,
    direct: &Vec<MaterialVertex>,
    inserted: &Vec<StepId>,
    material: &Vec<Face>,
    cold: &ColdReplay,
    drift: &Vec<Vec<Drift>>,
) -> (r: Result<(), String>)
    requires
        drift@.len() == cold.faces@.len(),
        forall|i: int|
            0 <= i < drift@.len() ==> (#[trigger] drift@[i])@.len() == cold.faces@[i].polygon@.len(),
    ensures
        verdict_view(r) == cold_verdict(
            pose@,
            direct@,
            inserted@,
            faces_model(material@),
            cold.skipped@,
            cold.converged,
            cold.best_effort,
            spatial_model(cold.faces@),
            drift@.map_values(|row: Vec<Drift>| row@),
        ),
{
    let ghost mf = faces_model(material@);
    let ghost frame = spatial_model(cold.faces@);
    let ghost rows = drift@.map_values(|row: Vec<Drift>| row@);
    // skipped inserted steps
    let mut k: usize = 0;
    while k < cold.skipped.len()
        invariant
            k <= cold.skipped.len(),
            forall|m: int| 0 <= m < k ==> !inserted@.contains(#[trigger] cold.skipped@[m]),
        decreases cold.skipped.len() - k,
    {
        if contains_id(inserted, cold.skipped[k]) {
            return Err(
                String::from_str("保存した折った形と折り目を読み直せないため、変更しませんでした。"),
            );
        }
        k += 1;
    }
    if !cold.converged || cold.best_effort {
        return Err(String::from_str("保存した3Dの形を最後まで読み直せないため、変更しませんでした。"));
    }
    if !ids_distinct(material) || cold.faces.len() != material.len() {
        return Err(
            String::from_str("保存した3Dの紙面が過不足なく揃わないため、変更しませんでした。"),
        );
    }
    let ghost total = finish(
        pose@,
        mf,
        scan_faces(pose@, direct@, mf, frame, rows, 0, seq![], seq![], false),
    );
    proof {
        assert(!(exists|k: int| 0 <= k < cold.skipped@.len() && inserted@.contains(#[trigger] cold.skipped@[k])));
        assert(cold_verdict(
            pose@,
            direct@,
            inserted@,
            mf,
            cold.skipped@,
            cold.converged,
            cold.best_effort,
            frame,
            rows,
        ) == total);
    }
    let mut seen_faces: Vec<FaceId> = Vec::new();
    let mut seen: Vec<VertexId> = Vec::new();
    let mut beyond = false;
    proof {
        assert(seen_faces@ =~= seq![]);
        assert(seen@ =~= seq![]);
    }
    let mut i: usize = 0;
    while i < cold.faces.len()
        invariant
            mf == faces_model(material@),
            frame == spatial_model(cold.faces@),
            rows == drift@.map_values(|row: Vec<Drift>| row@),
            drift@.len() == cold.faces@.len(),
            forall|a: int|
                0 <= a < drift@.len() ==> (#[trigger] drift@[a])@.len() == cold.faces@[a].polygon@.len(),
            i <= cold.faces.len(),
            total == cold_verdict(
                pose@,
                direct@,
                inserted@,
                faces_model(material@),
                cold.skipped@,
                cold.converged,
                cold.best_effort,
                spatial_model(cold.faces@),
                drift@.map_values(|row: Vec<Drift>| row@),
            ),
            total == finish(
                pose@,
                mf,
                scan_faces(pose@, direct@, mf, frame, rows, i as int, seen_faces@, seen@, beyond),
            ),
        decreases cold.faces.len() - i,
    {
        let sf = &cold.faces[i];
        proof {
            assert(frame[i as int] == sf@);
            assert(rows[i as int] == drift@[i as int]@);
        }
        if contains_id(&seen_faces, sf.face) {
            proof {
                assert(scan_faces(pose@, direct@, mf, frame, rows, i as int, seen_faces@, seen@, beyond)
                    == Err::<(Seq<FaceId>, Seq<VertexId>, bool), Seq<char>>(msg_face_repeated()));
            }
            return Err(String::from_str("保存した3Dの紙面が重複しているため、変更しませんでした。"));
        }
        let found = find_face(material, sf.face);
        let k = match found {
            Some(k) => k,
            None => {
                proof {
                    assert(scan_faces(pose@, direct@, mf, frame, rows, i as int, seen_faces@, seen@, beyond)
                        == Err::<(Seq<FaceId>, Seq<VertexId>, bool), Seq<char>>(msg_face_unreadable()));
                }
                return Err(String::from_str("保存した3Dの紙面を読み直せないため、変更しませんでした。"));
            },
        };
        let corners = &material[k].vertices;
        proof {
            assert(mf[k as int].vertices == corners@);
        }
        if corners.len() != sf.polygon.len() {
            proof {
                assert(scan_faces(pose@, direct@, mf, frame, rows, i as int, seen_faces@, seen@, beyond)
                    == Err::<(Seq<FaceId>, Seq<VertexId>, bool), Seq<char>>(msg_face_unreadable()));
            }
            return Err(String::from_str("保存した3Dの紙面を読み直せないため、変更しませんでした。"));
        }
        let row = &drift[i];
        proof {
            assert(scan_faces(pose@, direct@, mf, frame, rows, i as int, seen_faces@, seen@, beyond)
                == continue_faces(
                pose@,
                direct@,
                mf,
                frame,
                rows,
                i as int,
                seen_faces@,
                scan_points(pose@, direct@, corners@, row@, 0, seen@, beyond),
            ));
        }
        let mut j: usize = 0;
        while j < corners.len()
            invariant
                row@ == rows[i as int],
                row@.len() == corners@.len(),
                j <= corners.len(),
                i < cold.faces.len(),
                frame == spatial_model(cold.faces@),
    total == cold_verdict(
                    pose@,
                    direct@,
                    inserted@,
                    faces_model(material@),
                    cold.skipped@,
                    cold.converged,
                    cold.best_effort,
                    spatial_model(cold.faces@),
                    drift@.map_values(|row: Vec<Drift>| row@),
                ),
                total == finish(
                    pose@,
                    mf,
                    continue_faces(
                        pose@,
                        direct@,
                        mf,
                        frame,
                        rows,
                        i as int,
                        seen_faces@,
                        scan_points(pose@, direct@, corners@, row@, j as int, seen@, beyond),
                    ),
                ),
            decreases corners.len() - j,
        {
            let v = corners[j];
            let ghost before_seen = seen@;
            let ghost before_beyond = beyond;
            match lookup_last(pose, v) {
                None => {},
                Some(e) => {
                    match lookup_last(direct, v) {
                        None => {
                            proof {
                                assert(scan_points(pose@, direct@, corners@, row@, j as int, seen@, beyond)
                                    == Err::<(Seq<VertexId>, bool), Seq<char>>(msg_direct_missing()));
                            }
                            return Err(
                                String::from_str(
                                    "折り目を付けた直後の3Dの形を確認できないため、変更しませんでした。",
                                ),
                            );
                        },
                        Some(d) => {
                            if d.x_bits != e.x_bits || d.y_bits != e.y_bits || d.z_bits != e.z_bits {
                                proof {
                                    assert(position(d) != position(e));
                                    assert(scan_points(pose@, direct@, corners@, row@, j as int, seen@, beyond)
                                        == Err::<(Seq<VertexId>, bool), Seq<char>>(msg_direct_moved()));
                                }
                                return Err(
                                    String::from_str(
                                        "折り目を付ける処理で3Dの形が動いたため、変更しませんでした。",
                                    ),
                                );
                            }
                            proof {
                                assert(position(d) == position(e));
                            }
                            match row[j] {
                                Drift::NonFinite => {
                                    proof {
                                        assert(scan_points(pose@, direct@, corners@, row@, j as int, seen@, beyond)
                                            == Err::<(Seq<VertexId>, bool), Seq<char>>(msg_not_finite()));
                                    }
                                    return Err(
                                        String::from_str(
                                            "保存した3Dの形を有限な位置で読み直せないため、変更しませんでした。",
                                        ),
                                    );
                                },
                                Drift::Beyond => {
                                    beyond = true;
                                },
                                Drift::Within => {},
                            }
                            seen.push(v);
                        },
                    }
                },
            }
            proof {
                assert(scan_points(pose@, direct@, corners@, row@, j as int, before_seen, before_beyond)
                    == scan_points(pose@, direct@, corners@, row@, j + 1, seen@, beyond));
            }
            j += 1;
        }
        proof {
            assert(scan_points(pose@, direct@, corners@, row@, j as int, seen@, beyond)
                == Ok::<(Seq<VertexId>, bool), Seq<char>>((seen@, beyond)));
        }
        seen_faces.push(sf.face);
        i += 1;
    }
    proof {
        assert(scan_faces(pose@, direct@, mf, frame, rows, i as int, seen_faces@, seen@, beyond)
            == Ok::<(Seq<FaceId>, Seq<VertexId>, bool), Seq<char>>((seen_faces@, seen@, beyond)));
    }
    // every face of the paper was seen, and only those
    let mut m: usize = 0;
    while m < material.len()
        invariant
            mf == faces_model(material@),
            m <= material.len(),
            total == cold_verdict(
                pose@,
                direct@,
                inserted@,
                faces_model(material@),
                cold.skipped@,
                cold.converged,
                cold.best_effort,
                spatial_model(cold.faces@),
                drift@.map_values(|row: Vec<Drift>| row@),
            ),
            total == finish(pose@, faces_model(material@), Ok((seen_faces@, seen@, beyond))),

            forall|a: int| 0 <= a < m ==> seen_faces@.contains(#[trigger] mf[a].id),
        decreases material.len() - m,
    {
        if !contains_id(&seen_faces, material[m].id) {
            proof {
                assert(mf[m as int].id == material@[m as int].id);
                assert(!seen_faces@.contains(mf[m as int].id));
            }
            return Err(
                String::from_str("保存した3Dの紙面が元の紙と一致しないため、変更しませんでした。"),
            );
        }
        m += 1;
    }
    let mut s: usize = 0;
    while s < seen_faces.len()
        invariant
            mf == faces_model(material@),
            s <= seen_faces.len(),
            total == cold_verdict(
                pose@,
                direct@,
                inserted@,
                faces_model(material@),
                cold.skipped@,
                cold.converged,
                cold.best_effort,
                spatial_model(cold.faces@),
                drift@.map_values(|row: Vec<Drift>| row@),
            ),
            total == finish(pose@, faces_model(material@), Ok((seen_faces@, seen@, beyond))),

            forall|a: int|
                0 <= a < s ==> exists|b: int| 0 <= b < mf.len() && mf[b].id == #[trigger] seen_faces@[a],
        decreases seen_faces.len() - s,
    {
        let mut found = false;
        let mut b: usize = 0;
        while b < material.len()
            invariant
                mf == faces_model(material@),
                s < seen_faces.len(),
                b <= material.len(),
                found ==> exists|c: int| 0 <= c < mf.len() && mf[c].id == seen_faces@[s as int],
                !found ==> forall|c: int| 0 <= c < b ==> mf[c].id != seen_faces@[s as int],
            decreases material.len() - b,
        {
            if material[b].id == seen_faces[s] {
                proof {
                    assert(mf[b as int].id == seen_faces@[s as int]);
                }
                found = true;
            }
            b += 1;
        }
        if !found {
            proof {
                assert(!(exists|c: int| 0 <= c < mf.len() && mf[c].id == seen_faces@[s as int]));
            }
            return Err(
                String::from_str("保存した3Dの紙面が元の紙と一致しないため、変更しませんでした。"),
            );
        }
        s += 1;
    }
    // every vertex of the pose came back
    let mut p: usize = 0;
    while p < pose.len()
        invariant
            p <= pose.len(),
            forall|a: int| 0 <= a < p ==> seen@.contains(#[trigger] pose@[a].vertex),
            forall|a: int| 0 <= a < mf.len() ==> seen_faces@.contains(#[trigger] mf[a].id),
            forall|a: int|
                0 <= a < seen_faces@.len() ==> exists|b: int| 0 <= b < mf.len() && mf[b].id == #[trigger] seen_faces@[a],
            mf == faces_model(material@),
            total == cold_verdict(
                pose@,
                direct@,
                inserted@,
                faces_model(material@),
                cold.skipped@,
                cold.converged,
                cold.best_effort,
                spatial_model(cold.faces@),
                drift@.map_values(|row: Vec<Drift>| row@),
            ),
            total == finish(pose@, faces_model(material@), Ok((seen_faces@, seen@, beyond))),

        decreases pose.len() - p,
    {
        if !contains_id(&seen, pose[p].vertex) {
            proof {
                assert(!seen@.contains(pose@[p as int].vertex));
            }
            return Err(
                String::from_str("保存した3Dの形に元の紙の点が揃わないため、変更しませんでした。"),
            );
        }
        p += 1;
    }
    if beyond {
        return Err(String::from_str("保存した3Dの形で元の紙の点が動いたため、変更しませんでした。"));
    }
    Ok(())
}

} // verus!

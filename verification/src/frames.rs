//! Folded frames of the fixture patterns: the hinge angles they were measured at (bit
//! patterns of binary64 degrees), the frames the kernel builds from them with the stack
//! order kept, and the triangles of each face of a pattern.
use std::collections::BTreeMap;
use std::collections::HashMap;
use vstd::prelude::*;

use crate::kernel::Point;
use crate::model::{
    faces_model, CreasePattern, CreasePatternModel, EdgeId, Face, FaceId, FaceModel, Vertex,
    VertexId,
};
use crate::surface::{faces_distinct, frame_surface_rank_order, ranks_complete, RankedFace};

verus! {

broadcast use vstd::std_specs::hash::group_hash_axioms;

// ---------------------------------------------------------------------------
// Measured hinge angles
// ---------------------------------------------------------------------------
/// -180°
pub const ANGLE_MINUS_180: u64 = 0xc066800000000000u64;

/// 180°
pub const ANGLE_180: u64 = 0x4066800000000000u64;

/// The one binary64 value below 180°.
pub const ANGLE_BELOW_180: u64 = 0x40667fffffffffffu64;

/// The one binary64 value above -180°.
pub const ANGLE_ABOVE_MINUS_180: u64 = 0xc0667fffffffffffu64;

/// The twenty hinge angles of the frame the user saw, by edge.
pub open spec fn live_frame_angle_table() -> Map<EdgeId, u64> {
    map![
        17u32 => ANGLE_MINUS_180,
        18u32 => ANGLE_MINUS_180,
        19u32 => 0xc066487bf2b7e18eu64,
        20u32 => ANGLE_180,
        21u32 => ANGLE_180,
        22u32 => 0xbceb94f689681f10u64,
        23u32 => ANGLE_180,
        24u32 => ANGLE_180,
        25u32 => ANGLE_180,
        26u32 => ANGLE_180,
        27u32 => 0xbcf792423a2080e1u64,
        28u32 => ANGLE_180,
        29u32 => ANGLE_180,
        30u32 => ANGLE_BELOW_180,
        31u32 => 0xc066487bf2b7e18eu64,
        32u32 => ANGLE_180,
        33u32 => ANGLE_180,
        34u32 => ANGLE_180,
        35u32 => 0xbffbc206a40f3904u64,
        36u32 => ANGLE_MINUS_180
    ]
}

/// The twenty hinge angles the user entered for the zero-back pattern, by edge.
pub open spec fn zero_back_user_angle_table() -> Map<EdgeId, u64> {
    map![
        17u32 => ANGLE_ABOVE_MINUS_180,
        18u32 => ANGLE_ABOVE_MINUS_180,
        19u32 => ANGLE_180,
        20u32 => 0xc0573fffffffffffu64,
        21u32 => ANGLE_180,
        22u32 => ANGLE_180,
        23u32 => ANGLE_180,
        24u32 => 0xc0573fffffffffffu64,
        25u32 => ANGLE_180,
        26u32 => ANGLE_180,
        27u32 => 0xc066563186de3c11u64,
        28u32 => ANGLE_180,
        29u32 => ANGLE_180,
        30u32 => ANGLE_180,
        31u32 => 0xc066563186de3c11u64,
        32u32 => ANGLE_BELOW_180,
        33u32 => ANGLE_180,
        34u32 => ANGLE_180,
        35u32 => 0xbff4e73c90e1f779u64,
        36u32 => 0xc055c00000000000u64
    ]
}

/// The twenty hinge angles of the zero-back pattern as they stand now, by edge.
pub open spec fn zero_back_user_angle_now_table() -> Map<EdgeId, u64> {
    map![
        17u32 => ANGLE_ABOVE_MINUS_180,
        18u32 => ANGLE_ABOVE_MINUS_180,
        19u32 => ANGLE_180,
        20u32 => 0xc0587ffffffffffeu64,
        21u32 => ANGLE_180,
        22u32 => ANGLE_180,
        23u32 => ANGLE_180,
        24u32 => 0xc058800000000001u64,
        25u32 => ANGLE_180,
        26u32 => ANGLE_180,
        27u32 => 0xc0666420b019d2deu64,
        28u32 => ANGLE_BELOW_180,
        29u32 => ANGLE_180,
        30u32 => ANGLE_180,
        31u32 => 0xc0666420b019d2deu64,
        32u32 => ANGLE_180,
        33u32 => ANGLE_180,
        34u32 => ANGLE_180,
        35u32 => 0xbfebdf4fe62d210du64,
        36u32 => 0xc054800000000000u64
    ]
}

/// The hinge angles of the diagonal-and-midline pattern of the surface checks, with
/// `edge_43` the angle of edge 43, by edge.
pub open spec fn angle_surface_angle_table(edge_43: u64) -> Map<EdgeId, u64> {
    map![
        17u32 => ANGLE_MINUS_180,
        18u32 => ANGLE_MINUS_180,
        20u32 => 0xc057c00000000000u64,
        21u32 => ANGLE_180,
        22u32 => ANGLE_180,
        23u32 => ANGLE_180,
        24u32 => 0xc057c00000000000u64,
        25u32 => ANGLE_180,
        31u32 => 0xc05ec00000000000u64,
        32u32 => ANGLE_180,
        34u32 => ANGLE_180,
        37u32 => 0xc05ec00000000000u64,
        39u32 => ANGLE_180,
        40u32 => ANGLE_180,
        42u32 => 0xc04c800000000000u64,
        43u32 => edge_43
    ]
}

/// A map from edges to angles holding the entries of `entries`, in order.
fn angle_map(entries: &Vec<(EdgeId, u64)>) -> (r: HashMap<EdgeId, u64>)
    ensures
        r@ == entry_map(entries@),
{
    let mut m: HashMap<EdgeId, u64> = HashMap::new();
    let mut i: usize = 0;
    while i < entries.len()
        invariant
            i <= entries@.len(),
            m@ == entry_map(entries@.subrange(0, i as int)),
        decreases entries@.len() - i,
    {
        let (edge, angle) = entries[i];
        m.insert(edge, angle);
        proof {
            assert(entries@.subrange(0, i + 1).drop_last() =~= entries@.subrange(0, i as int));
        }
        i += 1;
    }
    proof {
        assert(entries@.subrange(0, entries@.len() as int) =~= entries@);
    }
    m
}

/// The map that inserting `entries` in order builds: a later entry for an edge wins.
pub open spec fn entry_map(entries: Seq<(EdgeId, u64)>) -> Map<EdgeId, u64>
    decreases entries.len(),
{
    if entries.len() == 0 {
        Map::empty()
    } else {
        entry_map(entries.drop_last()).insert(entries.last().0, entries.last().1)
    }
}

/// The angles of the diagonal-and-midline pattern, edge 43 at `edge_43` (a bit pattern
/// of degrees).
pub fn angle_surface_angles(edge_43: u64) -> (r: HashMap<EdgeId, u64>)
    ensures
        r@ == angle_surface_angle_table(edge_43),
{
    let entries: Vec<(EdgeId, u64)> = vec![
        (17, ANGLE_MINUS_180),
        (18, ANGLE_MINUS_180),
        (20, 0xc057c00000000000),
        (21, ANGLE_180),
        (22, ANGLE_180),
        (23, ANGLE_180),
        (24, 0xc057c00000000000),
        (25, ANGLE_180),
        (31, 0xc05ec00000000000),
        (32, ANGLE_180),
        (34, ANGLE_180),
        (37, 0xc05ec00000000000),
        (39, ANGLE_180),
        (40, ANGLE_180),
        (42, 0xc04c800000000000),
        (43, edge_43),
    ];
    let r = angle_map(&entries);
    proof {
        reveal_with_fuel(entry_map, 17);
        assert(r@ =~= angle_surface_angle_table(edge_43));
    }
    r
}

/// The angles of the frame the user saw.
pub fn live_frame_angles() -> (r: HashMap<EdgeId, u64>)
    ensures
        r@ == live_frame_angle_table(),
{
    let entries: Vec<(EdgeId, u64)> = vec![
        (17, ANGLE_MINUS_180),
        (18, ANGLE_MINUS_180),
        (19, 0xc066487bf2b7e18e),
        (20, ANGLE_180),
        (21, ANGLE_180),
        (22, 0xbceb94f689681f10),
        (23, ANGLE_180),
        (24, ANGLE_180),
        (25, ANGLE_180),
        (26, ANGLE_180),
        (27, 0xbcf792423a2080e1),
        (28, ANGLE_180),
        (29, ANGLE_180),
        (30, ANGLE_BELOW_180),
        (31, 0xc066487bf2b7e18e),
        (32, ANGLE_180),
        (33, ANGLE_180),
        (34, ANGLE_180),
        (35, 0xbffbc206a40f3904),
        (36, ANGLE_MINUS_180),
    ];
    let r = angle_map(&entries);
    proof {
        reveal_with_fuel(entry_map, 21);
        assert(r@ =~= live_frame_angle_table());
    }
    r
}

/// The angles the user entered for the zero-back pattern.
pub fn zero_back_user_angles() -> (r: HashMap<EdgeId, u64>)
    ensures
        r@ == zero_back_user_angle_table(),
{
    let entries: Vec<(EdgeId, u64)> = vec![
        (17, ANGLE_ABOVE_MINUS_180),
        (18, ANGLE_ABOVE_MINUS_180),
        (19, ANGLE_180),
        (20, 0xc0573fffffffffff),
        (21, ANGLE_180),
        (22, ANGLE_180),
        (23, ANGLE_180),
        (24, 0xc0573fffffffffff),
        (25, ANGLE_180),
        (26, ANGLE_180),
        (27, 0xc066563186de3c11),
        (28, ANGLE_180),
        (29, ANGLE_180),
        (30, ANGLE_180),
        (31, 0xc066563186de3c11),
        (32, ANGLE_BELOW_180),
        (33, ANGLE_180),
        (34, ANGLE_180),
        (35, 0xbff4e73c90e1f779),
        (36, 0xc055c00000000000),
    ];
    let r = angle_map(&entries);
    proof {
        reveal_with_fuel(entry_map, 21);
        assert(r@ =~= zero_back_user_angle_table());
    }
    r
}

/// The angles of the zero-back pattern as they stand now; they differ from
/// [`zero_back_user_angles`] on edges 20, 24, 27, 28, 31, 32, 35 and 36.
pub fn zero_back_user_angles_now() -> (r: HashMap<EdgeId, u64>)
    ensures
        r@ == zero_back_user_angle_now_table(),
{
    let entries: Vec<(EdgeId, u64)> = vec![
        (17, ANGLE_ABOVE_MINUS_180),
        (18, ANGLE_ABOVE_MINUS_180),
        (19, ANGLE_180),
        (20, 0xc0587ffffffffffe),
        (21, ANGLE_180),
        (22, ANGLE_180),
        (23, ANGLE_180),
        (24, 0xc058800000000001),
        (25, ANGLE_180),
        (26, ANGLE_180),
        (27, 0xc0666420b019d2de),
        (28, ANGLE_BELOW_180),
        (29, ANGLE_180),
        (30, ANGLE_180),
        (31, 0xc0666420b019d2de),
        (32, ANGLE_180),
        (33, ANGLE_180),
        (34, ANGLE_180),
        (35, 0xbfebdf4fe62d210d),
        (36, 0xc054800000000000),
    ];
    let r = angle_map(&entries);
    proof {
        reveal_with_fuel(entry_map, 21);
        assert(r@ =~= zero_back_user_angle_now_table());
    }
    r
}

// ---------------------------------------------------------------------------
// Frames built by the kernel
// ---------------------------------------------------------------------------
/// A frame built by the kernel, with the stack place of each of its faces read off it.
pub struct RankedFrame<F> {
    pub frame: F,
    pub ranks: Vec<RankedFace>,
}

/// The kernel's rigid folding and overlap correction. Each result is named by a spec
/// function, and each method returns exactly the named value.
pub trait FrameKernel {
    /// A folded pattern placed in 3D.
    type Frame;

    /// The pattern folded rigidly to the given angles and placed in 3D, with the stack
    /// place of each face.
    closed spec fn folded_of(
        &self,
        cp: CreasePatternModel,
        faces: Seq<FaceModel>,
        angles: Map<EdgeId, u64>,
    ) -> RankedFrame<Self::Frame> {
        vstd::pervasive::arbitrary()
    }

    /// A frame after its overlaps are corrected keeping `order`.
    closed spec fn overlap_corrected(
        &self,
        cp: CreasePatternModel,
        faces: Seq<FaceModel>,
        frame: Self::Frame,
        order: Seq<FaceId>,
    ) -> Self::Frame {
        vstd::pervasive::arbitrary()
    }

    /// Folds the pattern rigidly to `angles` (bit patterns of degrees, by edge) and places
    /// it in 3D, with the stack place of each face.
    fn folded_frame(&self, cp: &CreasePattern, faces: &Vec<Face>, angles: &HashMap<EdgeId, u64>) -> (r:
        RankedFrame<Self::Frame>)
        ensures
            r == self.folded_of(cp@, faces_model(faces@), angles@),
    ;

    /// Moves the faces of `frame` apart where they overlap, keeping `order` (faces from
    /// bottom to top) as the authority on which lies above which.
    fn prevent_overlap_with_order(
        &self,
        cp: &CreasePattern,
        faces: &Vec<Face>,
        frame: &mut Self::Frame,
        order: &Vec<FaceId>,
    )
        ensures
            *final(frame) == self.overlap_corrected(cp@, faces_model(faces@), *old(frame), order@),
    ;
}

/// Whether `order` lists the faces from bottom to top by their stack places.
pub open spec fn is_stack_order(ranks: Seq<RankedFace>, order: Seq<FaceId>) -> bool {
    &&& order.len() == ranks.len()
    &&& forall|i: int| 0 <= i < ranks.len() ==> order[#[trigger] ranks[i].surface_rank as int] == ranks[i].face
}

/// The faces from bottom to top by their stack places (meaningful where the places are
/// complete).
pub open spec fn stack_order(ranks: Seq<RankedFace>) -> Seq<FaceId> {
    choose|order: Seq<FaceId>| is_stack_order(ranks, order)
}

/// Complete stack places give one order only.
pub proof fn lemma_stack_order_unique(ranks: Seq<RankedFace>, order: Seq<FaceId>)
    requires
        ranks_complete(ranks),
        is_stack_order(ranks, order),
    ensures
        stack_order(ranks) == order,
{
    let other = stack_order(ranks);
    assert(is_stack_order(ranks, other));
    assert forall|k: int| 0 <= k < order.len() implies other[k] == order[k] by {
        assert(crate::surface::rank_taken(ranks, k));
        let i = choose|i: int| 0 <= i < ranks.len() && #[trigger] ranks[i].surface_rank == k;
        assert(order[ranks[i].surface_rank as int] == ranks[i].face);
        assert(other[ranks[i].surface_rank as int] == ranks[i].face);
    }
    assert(other =~= order);
}

/// Whether `r` is the frame of the pattern folded to `angles` with its overlaps corrected
/// in its stack order, or nothing where the folded frame has no complete stack order.
pub open spec fn frame_result<K: FrameKernel>(
    kernel: &K,
    cp: CreasePatternModel,
    faces: Seq<FaceModel>,
    angles: Map<EdgeId, u64>,
    r: Option<K::Frame>,
) -> bool {
    let f = kernel.folded_of(cp, faces, angles);
    &&& r is Some <==> (faces_distinct(f.ranks@) && ranks_complete(f.ranks@))
    &&& r matches Some(x) ==> x == kernel.overlap_corrected(cp, faces, f.frame, stack_order(f.ranks@))
}

/// Corrects the overlaps of a frame whose faces have a complete stack order, keeping that
/// order.
pub fn zero_back_apply_overlap<K: FrameKernel>(
    kernel: &K,
    cp: &CreasePattern,
    faces: &Vec<Face>,
    frame: RankedFrame<K::Frame>,
) -> (r: K::Frame)
    requires
        faces_distinct(frame.ranks@),
        ranks_complete(frame.ranks@),
    ensures
        r == kernel.overlap_corrected(cp@, faces_model(faces@), frame.frame, stack_order(frame.ranks@)),
{
    let RankedFrame { frame: mut solved, ranks } = frame;
    let order = frame_surface_rank_order(&ranks).unwrap();
    kernel.prevent_overlap_with_order(cp, faces, &mut solved, &order);
    proof {
        assert(is_stack_order(ranks@, order@));
        lemma_stack_order_unique(ranks@, order@);
    }
    solved
}

/// The frame of `cp` folded to `angles` with its overlaps corrected, or nothing when the
/// folded frame has no complete stack order.
pub fn frame_at_angles<K: FrameKernel>(
    kernel: &K,
    cp: &CreasePattern,
    faces: &Vec<Face>,
    angles: &HashMap<EdgeId, u64>,
) -> (r: Option<K::Frame>)
    ensures
        frame_result(kernel, cp@, faces_model(faces@), angles@, r),
{
    let frame = kernel.folded_frame(cp, faces, angles);
    if complete_order(&frame.ranks) {
        Some(zero_back_apply_overlap(kernel, cp, faces, frame))
    } else {
        None
    }
}

/// Whether the faces have a complete stack order.
pub fn complete_order(ranks: &Vec<RankedFace>) -> (r: bool)
    ensures
        r == (faces_distinct(ranks@) && ranks_complete(ranks@)),
{
    frame_surface_rank_order(ranks).is_some()
}

/// The frame the user saw, rebuilt as the editor builds it: the pattern folded to
/// [`live_frame_angles`], then its overlaps corrected.
pub fn live_frame_frame<K: FrameKernel>(kernel: &K, cp: &CreasePattern, faces: &Vec<Face>) -> (r:
    Option<K::Frame>)
    ensures
        frame_result(kernel, cp@, faces_model(faces@), live_frame_angle_table(), r),
{
    frame_at_angles(kernel, cp, faces, &live_frame_angles())
}

/// The frame of the zero-back pattern at the angles the user entered, rebuilt as the
/// editor builds it.
pub fn zero_back_user_frame<K: FrameKernel>(kernel: &K, cp: &CreasePattern, faces: &Vec<Face>) -> (r:
    Option<K::Frame>)
    ensures
        frame_result(kernel, cp@, faces_model(faces@), zero_back_user_angle_table(), r),
{
    frame_at_angles(kernel, cp, faces, &zero_back_user_angles())
}

// ---------------------------------------------------------------------------
// Triangles of the faces
// ---------------------------------------------------------------------------
/// Splits polygons into triangles.
pub trait Triangulator {
    /// The triangles of a simple counterclockwise polygon, as indices into it.
    fn triangulate(&self, polygon: &Vec<Point>) -> Vec<[usize; 3]>;
}

/// Where the vertex `id` lies: the position of the last vertex with that identifier.
pub open spec fn position_in(vs: Seq<Vertex>, id: VertexId) -> Option<Point>
    decreases vs.len(),
{
    if vs.len() == 0 {
        None
    } else if vs.last().id == id {
        Some(Point { x_bits: vs.last().x_bits, y_bits: vs.last().y_bits })
    } else {
        position_in(vs.drop_last(), id)
    }
}

/// Every corner of `face` is a vertex of `vs`.
pub open spec fn corners_placed(vs: Seq<Vertex>, face: Seq<VertexId>) -> bool {
    forall|i: int| 0 <= i < face.len() ==> #[trigger] position_in(vs, face[i]) is Some
}

/// The position of the vertex `id` of `cp`.
fn position_of(cp: &CreasePattern, id: VertexId) -> (r: Option<Point>)
    ensures
        r == position_in(cp.vertices@, id),
{
    let vs = &cp.vertices;
    let mut k: usize = vs.len();
    assert(vs@.subrange(0, k as int) =~= vs@);
    while k > 0
        invariant
            vs@ == cp.vertices@,
            k <= vs@.len(),
            position_in(vs@, id) == position_in(vs@.subrange(0, k as int), id),
        decreases k,
    {
        let v = vs[k - 1];
        assert(vs@.subrange(0, k as int).drop_last() =~= vs@.subrange(0, k - 1));
        assert(vs@.subrange(0, k as int).last() == v);
        if v.id == id {
            let p = Point { x_bits: v.x_bits, y_bits: v.y_bits };
            assert(position_in(vs@.subrange(0, k as int), id) == Some(p));
            return Some(p);
        }
        k -= 1;
    }
    None
}

/// The corners of `face` in order, at their positions in `cp`.
pub fn face_polygon(cp: &CreasePattern, face: &Face) -> (r: Vec<Point>)
    requires
        corners_placed(cp.vertices@, face.vertices@),
    ensures
        r@.len() == face.vertices@.len(),
        forall|i: int|
            0 <= i < r@.len() ==> Some(#[trigger] r@[i]) == position_in(cp.vertices@, face.vertices@[i]),
{
    let mut polygon: Vec<Point> = Vec::new();
    let mut i: usize = 0;
    while i < face.vertices.len()
        invariant
            i <= face.vertices@.len(),
            corners_placed(cp.vertices@, face.vertices@),
            polygon@.len() == i,
            forall|j: int|
                0 <= j < i ==> Some(#[trigger] polygon@[j]) == position_in(cp.vertices@, face.vertices@[j]),
        decreases face.vertices@.len() - i,
    {
        let id = face.vertices[i];
        assert(position_in(cp.vertices@, face.vertices@[i as int]) is Some);
        match position_of(cp, id) {
            Some(p) => polygon.push(p),
            None => {},
        }
        i += 1;
    }
    polygon
}

/// Face identifiers are ordered as integers are, so a map keyed by them behaves as a map.
proof fn lemma_face_ids_ordered()
    ensures
        vstd::laws_cmp::obeys_cmp::<FaceId>(),
{
    broadcast use vstd::laws_cmp::group_laws_cmp;
}

/// The identifiers of `faces`.
pub open spec fn face_ids(faces: Seq<Face>) -> Set<FaceId> {
    Set::new(|id: FaceId| exists|i: int| 0 <= i < faces.len() && #[trigger] faces[i].id == id)
}

/// The triangles of each face of `cp`, by face, each face split as a polygon of its
/// corners; a face whose identifier repeats keeps the triangles of its last occurrence.
pub fn triangulations<T: Triangulator>(
    triangulator: &T,
    cp: &CreasePattern,
    faces: &Vec<Face>,
) -> (r: BTreeMap<FaceId, Vec<[usize; 3]>>)
    requires
        forall|i: int| 0 <= i < faces@.len() ==> corners_placed(cp.vertices@, (#[trigger] faces@[i]).vertices@),
    ensures
        r@.dom() == face_ids(faces@),
{
    proof {
        lemma_face_ids_ordered();
    }
    let mut triangles: BTreeMap<FaceId, Vec<[usize; 3]>> = BTreeMap::new();
    let mut i: usize = 0;
    while i < faces.len()
        invariant
            i <= faces@.len(),
            forall|k: int| 0 <= k < faces@.len() ==> corners_placed(cp.vertices@, (#[trigger] faces@[k]).vertices@),
            triangles@.dom() == face_ids(faces@.subrange(0, i as int)),
        decreases faces@.len() - i,
    {
        proof {
            lemma_face_ids_ordered();
        }
        let face = &faces[i];
        let polygon = face_polygon(cp, face);
        triangles.insert(face.id, triangulator.triangulate(&polygon));
        proof {
            let before = faces@.subrange(0, i as int);
            let after = faces@.subrange(0, i + 1);
            assert forall|id: FaceId| face_ids(after).contains(id) <==> face_ids(before).insert(faces@[i as int].id).contains(id) by {
                if face_ids(after).contains(id) {
                    let j = choose|j: int| 0 <= j < after.len() && #[trigger] after[j].id == id;
                    if j < i {
                        assert(before[j].id == id);
                    }
                }
                if face_ids(before).contains(id) {
                    let j = choose|j: int| 0 <= j < before.len() && #[trigger] before[j].id == id;
                    assert(after[j].id == id);
                }
                if id == faces@[i as int].id {
                    assert(after[i as int].id == id);
                }
            }
            assert(face_ids(after) =~= face_ids(before).insert(faces@[i as int].id));
        }
        i += 1;
    }
    proof {
        assert(faces@.subrange(0, faces@.len() as int) =~= faces@);
    }
    triangles
}

} // verus!

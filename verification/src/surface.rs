//! Checks on what the 3D solver hands back: the stacking order of the faces, the
//! hinges that fold, whether a pose stayed put, and which warnings reach the screen.
use vstd::prelude::*;
use vstd::string::*;

use crate::edits::texts;
use crate::model::{
    faces_model, CreasePattern, Edge, EdgeId, EdgeKind, Face, FaceId, FaceModel, VertexId,
};

verus! {

// ---------------------------------------------------------------------------
// Stacking order
// ---------------------------------------------------------------------------
/// A face of a solved frame and its place in the stack, counted from the bottom.
#[derive(Clone, Copy, Debug, PartialEq, Eq, Structural)]
pub struct RankedFace {
    pub face: FaceId,
    pub surface_rank: u32,
}

/// No face occurs twice.
pub open spec fn faces_distinct(fs: Seq<RankedFace>) -> bool {
    forall|i: int, j: int| 0 <= i < j < fs.len() ==> #[trigger] fs[i].face != #[trigger] fs[j].face
}

/// Some face has rank `k`.
pub open spec fn rank_taken(fs: Seq<RankedFace>, k: int) -> bool {
    exists|i: int| 0 <= i < fs.len() && #[trigger] fs[i].surface_rank == k
}

/// The ranks are exactly `0..fs.len()`, each once.
pub open spec fn ranks_complete(fs: Seq<RankedFace>) -> bool {
    &&& forall|i: int| 0 <= i < fs.len() ==> (#[trigger] fs[i]).surface_rank < fs.len()
    &&& forall|i: int, j: int|
        0 <= i < j < fs.len() ==> #[trigger] fs[i].surface_rank != #[trigger] fs[j].surface_rank
    &&& forall|k: int| 0 <= k < fs.len() ==> #[trigger] rank_taken(fs, k)
}

/// The faces from bottom to top, where the frame's ranks give a complete order of
/// distinct faces; otherwise nothing, since an incomplete or repeated order (such as
/// the all-zero ranks of old frames) cannot be trusted as the physical one.
pub fn frame_surface_rank_order(faces: &Vec<RankedFace>) -> (r: Option<Vec<FaceId>>)
    ensures
        r is Some <==> faces_distinct(faces@) && ranks_complete(faces@),
        r matches Some(order) ==> order@.len() == faces@.len() && forall|i: int|
            0 <= i < faces@.len() ==> order@[#[trigger] faces@[i].surface_rank as int]
                == faces@[i].face,
{
    let n = faces.len();
    // distinct faces
    let mut i: usize = 0;
    while i < n
        invariant
            n == faces@.len(),
            i <= n,
            forall|a: int, b: int| 0 <= a < b < n && a < i ==> #[trigger] faces@[a].face != #[trigger] faces@[b].face,
        decreases n - i,
    {
        let mut j: usize = i + 1;
        while j < n
            invariant
                n == faces@.len(),
                i < n,
                i < j <= n,
                forall|a: int, b: int| 0 <= a < b < n && a < i ==> #[trigger] faces@[a].face != #[trigger] faces@[b].face,
                forall|b: int| i < b < j ==> faces@[i as int].face != #[trigger] faces@[b].face,
            decreases n - j,
        {
            if faces[i].face == faces[j].face {
                return None;
            }
            j += 1;
        }
        i += 1;
    }
    // every rank in range and used once
    let mut slots: Vec<Option<FaceId>> = Vec::new();
    let mut k: usize = 0;
    while k < n
        invariant
            k <= n,
            slots@.len() == k,
            forall|m: int| 0 <= m < k ==> slots@[m] is None,
        decreases n - k,
    {
        slots.push(None);
        k += 1;
    }
    let mut i: usize = 0;
    while i < n
        invariant
            n == faces@.len(),
            i <= n,
            slots@.len() == n,
            faces_distinct(faces@),
            forall|a: int| 0 <= a < i ==> (#[trigger] faces@[a]).surface_rank < n,
            forall|a: int, b: int|
                0 <= a < b < i ==> #[trigger] faces@[a].surface_rank != #[trigger] faces@[b].surface_rank,
            forall|m: int|
                0 <= m < n ==> (#[trigger] slots@[m] matches Some(f) ==> exists|a: int|
                    0 <= a < i && faces@[a].surface_rank == m && faces@[a].face == f),
            forall|m: int|
                0 <= m < n ==> (slots@[m] is None ==> forall|a: int|
                    0 <= a < i ==> #[trigger] faces@[a].surface_rank != m),
            forall|a: int| 0 <= a < i ==> slots@[(#[trigger] faces@[a]).surface_rank as int] == Some(faces@[a].face),
        decreases n - i,
    {
        let rank = faces[i].surface_rank;
        if rank as usize >= n {
            assert(!ranks_complete(faces@)) by {
                assert(faces@[i as int].surface_rank >= faces@.len());
            }
            return None;
        }
        let r = rank as usize;
        if slots[r].is_some() {
            proof {
                let f = slots@[r as int]->0;
                let a = choose|a: int| 0 <= a < i && faces@[a].surface_rank == r && faces@[a].face == f;
                assert(faces@[a].surface_rank == faces@[i as int].surface_rank);
                assert(!ranks_complete(faces@));
            }
            return None;
        }
        slots.set(r, Some(faces[i].face));
        i += 1;
    }
    // every slot is filled
    let mut order: Vec<FaceId> = Vec::new();
    let mut m: usize = 0;
    while m < n
        invariant
            n == faces@.len(),
            m <= n,
            slots@.len() == n,
            order@.len() == m,
            faces_distinct(faces@),
            forall|a: int| 0 <= a < n ==> (#[trigger] faces@[a]).surface_rank < n,
            forall|a: int, b: int|
                0 <= a < b < n ==> #[trigger] faces@[a].surface_rank != #[trigger] faces@[b].surface_rank,
            forall|q: int|
                0 <= q < n ==> (#[trigger] slots@[q] matches Some(f) ==> exists|a: int|
                    0 <= a < n && faces@[a].surface_rank == q && faces@[a].face == f),
            forall|q: int|
                0 <= q < n ==> (slots@[q] is None ==> forall|a: int|
                    0 <= a < n ==> #[trigger] faces@[a].surface_rank != q),
            forall|a: int| 0 <= a < n ==> slots@[(#[trigger] faces@[a]).surface_rank as int] == Some(faces@[a].face),
            forall|q: int| 0 <= q < m ==> slots@[q] == Some(#[trigger] order@[q]),
            forall|q: int| 0 <= q < m ==> #[trigger] rank_taken(faces@, q),
        decreases n - m,
    {
        match slots[m] {
            None => {
                proof {
                    assert(!ranks_complete(faces@)) by {
                        if ranks_complete(faces@) {
                            assert(rank_taken(faces@, m as int));
                            let a = choose|a: int| 0 <= a < n && #[trigger] faces@[a].surface_rank == m as int;
                            assert(faces@[a].surface_rank != m);
                        }
                    }
                }
                return None;
            },
            Some(f) => {
                proof {
                    let a = choose|a: int| 0 <= a < n && faces@[a].surface_rank == m && faces@[a].face == f;
                    assert(faces@[a].surface_rank == m as int);
                    assert(rank_taken(faces@, m as int));
                }
                order.push(f);
            },
        }
        m += 1;
    }
    proof {
        assert forall|i: int| 0 <= i < faces@.len() implies order@[#[trigger] faces@[i].surface_rank as int]
            == faces@[i].face by {
            let q = faces@[i].surface_rank as int;
            assert(slots@[q] == Some(order@[q]));
        }
    }
    Some(order)
}

/// The stacking order of a replayed frame, trusted only when the replay derived it
/// completely from the geometry (`derived`) and the ranks form a complete order.
pub fn replay_surface_rank_order(derived: bool, faces: &Vec<RankedFace>) -> (r: Option<Vec<FaceId>>)
    ensures
        r is Some <==> derived && faces_distinct(faces@) && ranks_complete(faces@),
        r matches Some(order) ==> order@.len() == faces@.len() && forall|i: int|
            0 <= i < faces@.len() ==> order@[#[trigger] faces@[i].surface_rank as int]
                == faces@[i].face,
{
    if !derived {
        return None;
    }
    frame_surface_rank_order(faces)
}

/// The layer of each face after the layers are set from a bottom-to-top `order`: a face
/// listed in it takes its place (its last place if listed twice, saturating at
/// `u32::MAX`), any other face keeps its layer.
pub open spec fn layer_from_order(order: Seq<FaceId>, face: FaceId, layer: u32) -> u32
    decreases order.len(),
{
    if order.len() == 0 {
        layer
    } else if order.last() == face {
        if order.len() - 1 <= u32::MAX {
            (order.len() - 1) as u32
        } else {
            u32::MAX
        }
    } else {
        layer_from_order(order.drop_last(), face, layer)
    }
}

/// A face of a frame and its layer.
#[derive(Clone, Copy, Debug, PartialEq, Eq, Structural)]
pub struct LayeredFace {
    pub face: FaceId,
    pub layer: u32,
}

/// Sets the layers of the faces from a bottom-to-top order.
pub fn apply_layer_order(order: &Vec<FaceId>, faces: &mut Vec<LayeredFace>)
    ensures
        final(faces)@.len() == old(faces)@.len(),
        forall|i: int|
            0 <= i < old(faces)@.len() ==> #[trigger] final(faces)@[i] == (LayeredFace {
                face: old(faces)@[i].face,
                layer: layer_from_order(order@, old(faces)@[i].face, old(faces)@[i].layer),
            }),
{
    let ghost initial = faces@;
    let mut i: usize = 0;
    while i < faces.len()
        invariant
            faces@.len() == initial.len(),
            i <= faces@.len(),
            forall|m: int| i <= m < faces@.len() ==> faces@[m] == initial[m],
            forall|m: int|
                0 <= m < i ==> #[trigger] faces@[m] == (LayeredFace {
                    face: initial[m].face,
                    layer: layer_from_order(order@, initial[m].face, initial[m].layer),
                }),
        decreases faces.len() - i,
    {
        let face = faces[i].face;
        let layer = layer_in_order(order, face, faces[i].layer);
        faces.set(i, LayeredFace { face, layer });
        i += 1;
    }
}

/// The layer of `face` after the layers are set from a bottom-to-top `order`, given its
/// layer before.
pub fn layer_in_order(order: &Vec<FaceId>, face: FaceId, before: u32) -> (r: u32)
    ensures
        r == layer_from_order(order@, face, before),
{
    let mut layer = before;
    let mut k: usize = 0;
    proof {
        assert(order@.take(0) =~= Seq::<FaceId>::empty());
    }
    while k < order.len()
        invariant
            k <= order.len(),
            layer == layer_from_order(order@.take(k as int), face, before),
        decreases order.len() - k,
    {
        proof {
            assert(order@.take(k + 1).drop_last() =~= order@.take(k as int));
        }
        if order[k] == face {
            layer = if k <= 0xffff_ffffusize {
                k as u32
            } else {
                u32::MAX
            };
        }
        k += 1;
    }
    proof {
        assert(order@.take(order@.len() as int) =~= order@);
    }
    layer
}

/// Where the stacking order of a frame came from.
#[derive(Clone, Copy, Debug, PartialEq, Eq, Structural)]
pub enum SurfaceOrderSource {
    SolvedMotionPath,
    SolvedFlatPath,
    FoldFramePath,
    CurrentDepths,
    PropagatedFlatPath,
    NoOverlap,
}

/// The name under which a source of the stacking order is reported.
pub open spec fn source_label(source: Option<SurfaceOrderSource>) -> Seq<char> {
    match source {
        Some(SurfaceOrderSource::SolvedMotionPath) => "solved-motion-path"@,
        Some(SurfaceOrderSource::SolvedFlatPath) => "solved-flat-path"@,
        Some(SurfaceOrderSource::FoldFramePath) => "fold-frame-path"@,
        Some(SurfaceOrderSource::CurrentDepths) => "current-depths"@,
        Some(SurfaceOrderSource::PropagatedFlatPath) => "propagated-flat-path"@,
        Some(SurfaceOrderSource::NoOverlap) => "no-overlap"@,
        None => "not-stamped"@,
    }
}

/// The name of the geometry that decided the stacking order, or `not-stamped`.
pub fn surface_order_source_label(source: Option<SurfaceOrderSource>) -> (r: &'static str)
    ensures
        r@ == source_label(source),
{
    match source {
        Some(SurfaceOrderSource::SolvedMotionPath) => "solved-motion-path",
        Some(SurfaceOrderSource::SolvedFlatPath) => "solved-flat-path",
        Some(SurfaceOrderSource::FoldFramePath) => "fold-frame-path",
        Some(SurfaceOrderSource::CurrentDepths) => "current-depths",
        Some(SurfaceOrderSource::PropagatedFlatPath) => "propagated-flat-path",
        Some(SurfaceOrderSource::NoOverlap) => "no-overlap",
        None => "not-stamped",
    }
}

// ---------------------------------------------------------------------------
// Hinges
// ---------------------------------------------------------------------------
/// How often `id` occurs in `s`.
pub open spec fn occurrences(s: Seq<EdgeId>, id: EdgeId) -> nat
    decreases s.len(),
{
    if s.len() == 0 {
        0
    } else {
        occurrences(s.drop_last(), id) + if s.last() == id { 1nat } else { 0nat }
    }
}

/// How often `id` occurs on the boundaries of all the faces together.
pub open spec fn owners(faces: Seq<FaceModel>, id: EdgeId) -> nat
    decreases faces.len(),
{
    if faces.len() == 0 {
        0
    } else {
        owners(faces.drop_last(), id) + occurrences(faces.last().edges, id)
    }
}

/// A mountain or valley line shared by exactly two face boundaries: a line the paper
/// folds about.
pub open spec fn is_hinge(e: Edge, faces: Seq<FaceModel>) -> bool {
    (e.kind == EdgeKind::Mountain || e.kind == EdgeKind::Valley) && owners(faces, e.id) == 2
}

/// The hinges among `edges`, in their order, with their kinds.
pub open spec fn hinges(edges: Seq<Edge>, faces: Seq<FaceModel>) -> Seq<(EdgeId, EdgeKind)>
    decreases edges.len(),
{
    if edges.len() == 0 {
        seq![]
    } else {
        let rest = hinges(edges.drop_last(), faces);
        let e = edges.last();
        if is_hinge(e, faces) {
            rest.push((e.id, e.kind))
        } else {
            rest
        }
    }
}

proof fn lemma_owners_step(faces: Seq<FaceModel>, k: int, id: EdgeId)
    requires
        0 <= k < faces.len(),
    ensures
        owners(faces.take(k + 1), id) == owners(faces.take(k), id) + occurrences(faces[k].edges, id),
{
    assert(faces.take(k + 1).drop_last() =~= faces.take(k));
}

proof fn lemma_occurrences_step(s: Seq<EdgeId>, k: int, id: EdgeId)
    requires
        0 <= k < s.len(),
    ensures
        occurrences(s.take(k + 1), id) == occurrences(s.take(k), id) + if s[k] == id { 1nat } else { 0nat },
{
    assert(s.take(k + 1).drop_last() =~= s.take(k));
}

/// `min(owners(faces, id), 3)`: how many face boundaries hold `id`, counted up to three.
fn owners_up_to_three(faces: &Vec<Face>, id: EdgeId) -> (r: u32)
    ensures
        r as nat == if owners(faces_model(faces@), id) < 3 { owners(faces_model(faces@), id) } else { 3 },
{
    let ghost fm = faces_model(faces@);
    let mut count: u32 = 0;
    let mut f: usize = 0;
    while f < faces.len()
        invariant
            fm == faces_model(faces@),
            f <= faces.len(),
            count as nat == if owners(fm.take(f as int), id) < 3 { owners(fm.take(f as int), id) } else { 3 },
        decreases faces.len() - f,
    {
        let edges = &faces[f].edges;
        let ghost before = owners(fm.take(f as int), id);
        let mut k: usize = 0;
        while k < edges.len()
            invariant
                fm == faces_model(faces@),
                f < faces.len(),
                edges@ == fm[f as int].edges,
                k <= edges.len(),
                count as nat == if before + occurrences(edges@.take(k as int), id) < 3 {
                    before + occurrences(edges@.take(k as int), id)
                } else {
                    3
                },
            decreases edges.len() - k,
        {
            proof {
                lemma_occurrences_step(edges@, k as int, id);
            }
            if edges[k] == id && count < 3 {
                count += 1;
            }
            k += 1;
        }
        proof {
            assert(edges@.take(edges@.len() as int) =~= edges@);
            lemma_owners_step(fm, f as int, id);
        }
        f += 1;
    }
    proof {
        assert(fm.take(faces@.len() as int) =~= fm);
    }
    count
}

/// The mountain and valley lines of `cp` that exactly two faces share, in the order of
/// the pattern's edges, each with its kind.
pub fn fold_hinges(cp: &CreasePattern, faces: &Vec<Face>) -> (r: Vec<(EdgeId, EdgeKind)>)
    ensures
        r@ == hinges(cp.edges@, faces_model(faces@)),
{
    let ghost fm = faces_model(faces@);
    let mut out: Vec<(EdgeId, EdgeKind)> = Vec::new();
    let mut i: usize = 0;
    while i < cp.edges.len()
        invariant
            fm == faces_model(faces@),
            i <= cp.edges.len(),
            out@ == hinges(cp.edges@.take(i as int), fm),
        decreases cp.edges.len() - i,
    {
        let e = cp.edges[i];
        proof {
            assert(cp.edges@.take(i + 1).drop_last() =~= cp.edges@.take(i as int));
        }
        let folds = match e.kind {
            EdgeKind::Mountain | EdgeKind::Valley => true,
            _ => false,
        };
        if folds && owners_up_to_three(faces, e.id) == 2 {
            out.push((e.id, e.kind));
        }
        i += 1;
    }
    proof {
        assert(cp.edges@.take(cp.edges@.len() as int) =~= cp.edges@);
    }
    out
}

// ---------------------------------------------------------------------------
// A pose that must not move
// ---------------------------------------------------------------------------
/// A vertex of the folded paper and the bit patterns of its three coordinates.
#[derive(Clone, Copy, Debug, PartialEq, Eq, Structural)]
pub struct MaterialVertex {
    pub vertex: VertexId,
    pub x_bits: u64,
    pub y_bits: u64,
    pub z_bits: u64,
}

/// The last entry of `vs` for `id`, as a lookup built from `vs` in order keeps it.
pub open spec fn last_entry(vs: Seq<MaterialVertex>, id: VertexId) -> Option<MaterialVertex>
    decreases vs.len(),
{
    if vs.len() == 0 {
        None
    } else if vs.last().vertex == id {
        Some(vs.last())
    } else {
        last_entry(vs.drop_last(), id)
    }
}

/// Every vertex of `before` is found in `after` at exactly the same position, bit for
/// bit.
pub open spec fn pose_unchanged(before: Seq<MaterialVertex>, after: Seq<MaterialVertex>) -> bool {
    forall|i: int| 0 <= i < before.len() ==> last_entry(after, (#[trigger] before[i]).vertex) == Some(before[i])
}

/// "The 3D shape moved while creasing, so nothing was changed."
pub open spec fn msg_pose_moved() -> Seq<char> {
    "折り目を付ける前後で3Dの形が動いたため、変更しませんでした。"@
}

fn lookup_last(vs: &Vec<MaterialVertex>, id: VertexId) -> (r: Option<MaterialVertex>)
    ensures
        r == last_entry(vs@, id),
{
    let mut k: usize = vs.len();
    proof {
        assert(vs@.take(k as int) =~= vs@);
    }
    while k > 0
        invariant
            k <= vs.len(),
            last_entry(vs@, id) == last_entry(vs@.take(k as int), id),
        decreases k,
    {
        let v = vs[k - 1];
        proof {
            assert(vs@.take(k as int).drop_last() =~= vs@.take(k - 1));
        }
        if v.vertex == id {
            return Some(v);
        }
        k -= 1;
    }
    None
}

/// Checks that creasing the top sheet left the 3D shape exactly where it was: every
/// vertex of the pose before is found after at the same coordinates, bit for bit.
pub fn verify_direct_crease_only_pose_is_unchanged(
    before: &Vec<MaterialVertex>,
    after: &Vec<MaterialVertex>,
) -> (r: Result<(), String>)
    ensures
        r is Ok <==> pose_unchanged(before@, after@),
        r matches Err(m) ==> m@ == msg_pose_moved(),
{
    proof {
        assert(after@.take(after@.len() as int) =~= after@);
    }
    let mut i: usize = 0;
    while i < before.len()
        invariant
            i <= before.len(),
            forall|j: int| 0 <= j < i ==> last_entry(after@, (#[trigger] before@[j]).vertex) == Some(before@[j]),
        decreases before.len() - i,
    {
        let v = before[i];
        let found = lookup_last(after, v.vertex);
        if found != Some(v) {
            return Err(
                String::from_str("折り目を付ける前後で3Dの形が動いたため、変更しませんでした。"),
            );
        }
        i += 1;
    }
    Ok(())
}

// ---------------------------------------------------------------------------
// Warnings
// ---------------------------------------------------------------------------
/// `ws` without the messages equal to `a` or `b`, in order.
pub open spec fn without_messages(ws: Seq<Seq<char>>, a: Seq<char>, b: Seq<char>) -> Seq<Seq<char>>
    decreases ws.len(),
{
    if ws.len() == 0 {
        seq![]
    } else {
        let rest = without_messages(ws.drop_last(), a, b);
        if ws.last() == a || ws.last() == b {
            rest
        } else {
            rest.push(ws.last())
        }
    }
}

/// With penetration detection off, drops the two penetration warnings (`penetration`
/// and `fold_penetration`) that lower layers leave as diagnostics; other warnings stay.
pub fn filter_penetration_warnings(
    warnings: &mut Vec<String>,
    detect: bool,
    penetration: &String,
    fold_penetration: &String,
)
    ensures
        detect ==> texts(final(warnings)@) == texts(old(warnings)@),
        !detect ==> texts(final(warnings)@) == without_messages(
            texts(old(warnings)@),
            penetration@,
            fold_penetration@,
        ),
{
    if detect {
        return;
    }
    let ghost initial = texts(warnings@);
    let mut kept: Vec<String> = Vec::new();
    let mut i: usize = 0;
    while i < warnings.len()
        invariant
            initial == texts(warnings@),
            i <= warnings.len(),
            texts(kept@) == without_messages(initial.take(i as int), penetration@, fold_penetration@),
        decreases warnings.len() - i,
    {
        proof {
            assert(initial.take(i + 1).drop_last() =~= initial.take(i as int));
        }
        let w = &warnings[i];
        if !(w.eq(penetration) || w.eq(fold_penetration)) {
            kept.push(w.clone());
            proof {
                assert(texts(kept@) =~= texts(kept@.drop_last()).push(w@));
            }
        }
        i += 1;
    }
    proof {
        assert(initial.take(initial.len() as int) =~= initial);
    }
    *warnings = kept;
}

/// Adds the penetration warning `warning` once where the pose intersects itself and it
/// is not there yet; answers whether it was added.
pub fn note_penetration(warnings: &mut Vec<String>, intersects: bool, warning: &String) -> (added:
    bool)
    ensures
        added == (intersects && !texts(old(warnings)@).contains(warning@)),
        added ==> texts(final(warnings)@) == texts(old(warnings)@).push(warning@),
        !added ==> texts(final(warnings)@) == texts(old(warnings)@),
{
    if !intersects {
        return false;
    }
    let mut i: usize = 0;
    while i < warnings.len()
        invariant
            i <= warnings.len(),
            forall|j: int| 0 <= j < i ==> warnings@[j]@ != warning@,
        decreases warnings.len() - i,
    {
        if warnings[i].eq(warning) {
            proof {
                assert(texts(warnings@)[i as int] == warning@);
            }
            return false;
        }
        i += 1;
    }
    proof {
        assert forall|j: int| 0 <= j < texts(warnings@).len() implies texts(warnings@)[j] != warning@ by {
            assert(texts(warnings@)[j] == warnings@[j]@);
        }
    }
    warnings.push(warning.clone());
    proof {
        assert(texts(warnings@) =~= texts(old(warnings)@).push(warning@));
    }
    true
}

} // verus!

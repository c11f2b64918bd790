//! Which faces form the top sheet under a point of the material, in a partly folded
//! pose: the face under the point and every face joined to it by a hinge that is not
//! folded at all (angle zero), as long as the hinges, the faces and the point make that
//! choice unambiguous.
//!
//! Which faces contain the point is a floating-point question answered outside this
//! library; how the hinges round the top sheet relate it to the next sheet is another,
//! answered outside for the hinges that [`top_surface`] lists.
use vstd::prelude::*;

use crate::fold_target::SpatialCreaseOnlyError;
use crate::model::{faces_model, EdgeId, Face, FaceId, FaceModel};

verus! {

// ---------------------------------------------------------------------------
// Specification
// ---------------------------------------------------------------------------
/// The binary64 value with bit pattern `bits` is finite (its exponent is not all ones).
pub open spec fn is_finite_bits(bits: u64) -> bool {
    (bits >> 52u64) & 0x7ffu64 != 0x7ffu64
}

/// The binary64 value with bit pattern `bits` is zero (of either sign).
pub open spec fn is_zero_bits(bits: u64) -> bool {
    bits == 0 || bits == 0x8000_0000_0000_0000u64
}

/// Some hinge angle is not finite, or one hinge is given two different angles.
pub open spec fn angles_invalid(angles: Seq<(EdgeId, u64)>) -> bool {
    (exists|i: int| 0 <= i < angles.len() && !is_finite_bits(#[trigger] angles[i].1)) || (exists|
        i: int,
        j: int,
    |
        0 <= i < j < angles.len() && #[trigger] angles[i].0 == #[trigger] angles[j].0 && angles[i].1
            != angles[j].1)
}

/// The angle given for hinge `e` (its last entry).
pub open spec fn angle_of(angles: Seq<(EdgeId, u64)>, e: EdgeId) -> Option<u64>
    decreases angles.len(),
{
    if angles.len() == 0 {
        None
    } else if angles.last().0 == e {
        Some(angles.last().1)
    } else {
        angle_of(angles.drop_last(), e)
    }
}

/// The face `id` once for each time its boundary lists `e`.
pub open spec fn owners_in(edges: Seq<EdgeId>, id: FaceId, e: EdgeId) -> Seq<FaceId>
    decreases edges.len(),
{
    if edges.len() == 0 {
        seq![]
    } else {
        owners_in(edges.drop_last(), id, e) + if edges.last() == e {
            seq![id]
        } else {
            seq![]
        }
    }
}

/// The faces whose boundaries list `e`, in order, once per listing.
pub open spec fn owner_list(faces: Seq<FaceModel>, e: EdgeId) -> Seq<FaceId>
    decreases faces.len(),
{
    if faces.len() == 0 {
        seq![]
    } else {
        owner_list(faces.drop_last(), e) + owners_in(faces.last().edges, faces.last().id, e)
    }
}

/// Some edge is listed by more than two face boundaries.
pub open spec fn owners_ambiguous(faces: Seq<FaceModel>) -> bool {
    exists|f: int, k: int|
        0 <= f < faces.len() && 0 <= k < faces[f].edges.len() && owner_list(
            faces,
            #[trigger] faces[f].edges[k],
        ).len() > 2
}

/// Edge `e` is a hinge between two faces that is not folded at all.
pub open spec fn zero_hinge(faces: Seq<FaceModel>, angles: Seq<(EdgeId, u64)>, e: EdgeId) -> bool {
    owner_list(faces, e).len() == 2 && (angle_of(angles, e) matches Some(a) && is_zero_bits(a))
}

/// A set of faces that holds, with each face, every face joined to it by an unfolded
/// hinge.
pub open spec fn closed_set(s: Set<FaceId>, faces: Seq<FaceModel>, angles: Seq<(EdgeId, u64)>) -> bool {
    forall|f: int, k: int|
        0 <= f < faces.len() && 0 <= k < faces[f].edges.len() && zero_hinge(
            faces,
            angles,
            #[trigger] faces[f].edges[k],
        ) ==> (s.contains(owner_list(faces, faces[f].edges[k])[0]) <==> s.contains(
            owner_list(faces, faces[f].edges[k])[1],
        ))
}

/// `s` is the set of faces reachable from `seed` over unfolded hinges: it holds `seed`,
/// is closed, and lies within every closed set that holds `seed`.
pub open spec fn is_component(
    s: Set<FaceId>,
    seed: FaceId,
    faces: Seq<FaceModel>,
    angles: Seq<(EdgeId, u64)>,
) -> bool {
    &&& s.contains(seed)
    &&& closed_set(s, faces, angles)
    &&& forall|t: Set<FaceId>| #[trigger]
        closed_set(t, faces, angles) && t.contains(seed) ==> s.subset_of(t)
}

/// The faces reachable from `seed` over unfolded hinges.
pub open spec fn component(seed: FaceId, faces: Seq<FaceModel>, angles: Seq<(EdgeId, u64)>) -> Set<
    FaceId,
> {
    choose|s: Set<FaceId>| is_component(s, seed, faces, angles)
}

/// The identifiers of the faces in `s`, in the order of `faces`.
pub open spec fn faces_in(faces: Seq<FaceModel>, s: Set<FaceId>) -> Seq<FaceId>
    decreases faces.len(),
{
    if faces.len() == 0 {
        seq![]
    } else {
        faces_in(faces.drop_last(), s) + if s.contains(faces.last().id) {
            seq![faces.last().id]
        } else {
            seq![]
        }
    }
}

/// Edge `e` joins exactly two face boundaries, one inside `s` and one outside.
pub open spec fn boundary_hinge(faces: Seq<FaceModel>, s: Set<FaceId>, e: EdgeId) -> bool {
    owner_list(faces, e).len() == 2 && (s.contains(owner_list(faces, e)[0]) != s.contains(
        owner_list(faces, e)[1],
    ))
}

/// The top sheet found under a point.
#[derive(Debug, PartialEq)]
pub struct TopSurface {
    /// Its faces, in the order of the paper's faces.
    pub surface_faces: Vec<FaceId>,
    /// The hinges round it, each once, with the angle given for each.
    pub boundary: Vec<(EdgeId, Option<u64>)>,
}

// ---------------------------------------------------------------------------
// Lemmas
// ---------------------------------------------------------------------------
/// Two sets that are both the component of `seed` are equal.
pub proof fn lemma_component_unique(
    s: Set<FaceId>,
    t: Set<FaceId>,
    seed: FaceId,
    faces: Seq<FaceModel>,
    angles: Seq<(EdgeId, u64)>,
)
    requires
        is_component(s, seed, faces, angles),
        is_component(t, seed, faces, angles),
    ensures
        s == t,
{
    assert(s.subset_of(t));
    assert(t.subset_of(s));
    assert(s =~= t);
}

/// How many pairs have both members in `s`.
pub open spec fn count_both(pairs: Seq<(FaceId, FaceId)>, s: Set<FaceId>) -> nat
    decreases pairs.len(),
{
    if pairs.len() == 0 {
        0
    } else {
        count_both(pairs.drop_last(), s) + if s.contains(pairs.last().0) && s.contains(
            pairs.last().1,
        ) {
            1nat
        } else {
            0nat
        }
    }
}

proof fn lemma_count_grows(pairs: Seq<(FaceId, FaceId)>, s: Set<FaceId>, t: Set<FaceId>, i: int)
    requires
        s.subset_of(t),
        0 <= i < pairs.len(),
        !(s.contains(pairs[i].0) && s.contains(pairs[i].1)),
        t.contains(pairs[i].0) && t.contains(pairs[i].1),
    ensures
        count_both(pairs, s) < count_both(pairs, t),
    decreases pairs.len(),
{
    lemma_count_mono(pairs.drop_last(), s, t);
    if i < pairs.len() - 1 {
        lemma_count_grows(pairs.drop_last(), s, t, i);
    }
}

proof fn lemma_count_mono(pairs: Seq<(FaceId, FaceId)>, s: Set<FaceId>, t: Set<FaceId>)
    requires
        s.subset_of(t),
    ensures
        count_both(pairs, s) <= count_both(pairs, t),
        count_both(pairs, t) <= pairs.len(),
    decreases pairs.len(),
{
    if pairs.len() > 0 {
        lemma_count_mono(pairs.drop_last(), s, t);
    }
}

// ---------------------------------------------------------------------------
// Implementation
// ---------------------------------------------------------------------------
fn contains_face(v: &Vec<FaceId>, x: FaceId) -> (r: bool)
    ensures
        r == v@.contains(x),
{
    let mut k: usize = 0;
    while k < v.len()
        invariant
            k <= v.len(),
            forall|m: int| 0 <= m < k ==> v@[m] != x,
        decreases v.len() - k,
    {
        if v[k] == x {
            assert(v@[k as int] == x);
            return true;
        }
        k += 1;
    }
    false
}

fn finite_bits(bits: u64) -> (r: bool)
    ensures
        r == is_finite_bits(bits),
{
    (bits >> 52u64) & 0x7ffu64 != 0x7ffu64
}

fn angle_lookup(angles: &Vec<(EdgeId, u64)>, e: EdgeId) -> (r: Option<u64>)
    ensures
        r == angle_of(angles@, e),
{
    let mut k: usize = angles.len();
    proof {
        assert(angles@.take(k as int) =~= angles@);
    }
    while k > 0
        invariant
            k <= angles.len(),
            angle_of(angles@, e) == angle_of(angles@.take(k as int), e),
        decreases k,
    {
        proof {
            assert(angles@.take(k as int).drop_last() =~= angles@.take(k - 1));
        }
        if angles[k - 1].0 == e {
            return Some(angles[k - 1].1);
        }
        k -= 1;
    }
    None
}

fn owners_of(faces: &Vec<Face>, e: EdgeId) -> (r: Vec<FaceId>)
    ensures
        r@ == owner_list(faces_model(faces@), e),
{
    let ghost fm = faces_model(faces@);
    let mut out: Vec<FaceId> = Vec::new();
    let mut f: usize = 0;
    while f < faces.len()
        invariant
            fm == faces_model(faces@),
            f <= faces.len(),
            out@ == owner_list(fm.take(f as int), e),
        decreases faces.len() - f,
    {
        let edges = &faces[f].edges;
        let id = faces[f].id;
        let ghost before = out@;
        let mut k: usize = 0;
        while k < edges.len()
            invariant
                fm == faces_model(faces@),
                f < faces.len(),
                edges@ == fm[f as int].edges,
                id == fm[f as int].id,
                k <= edges.len(),
                out@ == before + owners_in(edges@.take(k as int), id, e),
            decreases edges.len() - k,
        {
            proof {
                assert(edges@.take(k + 1).drop_last() =~= edges@.take(k as int));
            }
            if edges[k] == e {
                out.push(id);
                proof {
                    assert(out@ =~= before + owners_in(edges@.take(k + 1), id, e));
                }
            } else {
                proof {
                    assert(out@ =~= before + owners_in(edges@.take(k + 1), id, e));
                }
            }
            k += 1;
        }
        proof {
            assert(edges@.take(edges@.len() as int) =~= edges@);
            assert(fm.take(f + 1).drop_last() =~= fm.take(f as int));
        }
        f += 1;
    }
    proof {
        assert(fm.take(faces@.len() as int) =~= fm);
    }
    out
}

/// The pair of faces that an unfolded hinge joins.
pub open spec fn zero_pair(faces: Seq<FaceModel>, angles: Seq<(EdgeId, u64)>, pr: (FaceId, FaceId)) -> bool {
    exists|a: int, b: int|
        0 <= a < faces.len() && 0 <= b < faces[a].edges.len() && zero_hinge(
            faces,
            angles,
            #[trigger] faces[a].edges[b],
        ) && pr == (owner_list(faces, faces[a].edges[b])[0], owner_list(faces, faces[a].edges[b])[1])
}

/// Every pair of `pairs` is joined by an unfolded hinge, and every unfolded hinge among
/// the first `upto` faces has its pair in `pairs`.
pub open spec fn pairs_cover(
    faces: Seq<FaceModel>,
    angles: Seq<(EdgeId, u64)>,
    pairs: Seq<(FaceId, FaceId)>,
    upto: int,
) -> bool {
    &&& forall|p: int| 0 <= p < pairs.len() ==> zero_pair(faces, angles, #[trigger] pairs[p])
    &&& forall|a: int, b: int|
        0 <= a < upto && 0 <= b < faces[a].edges.len() && zero_hinge(
            faces,
            angles,
            #[trigger] faces[a].edges[b],
        ) ==> pairs.contains(
            (owner_list(faces, faces[a].edges[b])[0], owner_list(faces, faces[a].edges[b])[1]),
        )
}

/// Every pair of `pairs` has both or neither member in `s`.
pub open spec fn pairs_balanced(pairs: Seq<(FaceId, FaceId)>, s: Set<FaceId>) -> bool {
    forall|q: int| 0 <= q < pairs.len() ==> (s.contains((#[trigger] pairs[q]).0) == s.contains(pairs[q].1))
}

fn angles_valid(angles: &Vec<(EdgeId, u64)>) -> (r: bool)
    ensures
        r == !angles_invalid(angles@),
{
    let mut i: usize = 0;
    while i < angles.len()
        invariant
            i <= angles.len(),
            forall|a: int| 0 <= a < i ==> is_finite_bits(#[trigger] angles@[a].1),
            forall|a: int, b: int|
                0 <= a < b < i && #[trigger] angles@[a].0 == #[trigger] angles@[b].0 ==> angles@[a].1
                    == angles@[b].1,
        decreases angles.len() - i,
    {
        if !finite_bits(angles[i].1) {
            return false;
        }
        let mut j: usize = 0;
        while j < i
            invariant
                i < angles.len(),
                j <= i,
                forall|b: int| 0 <= b < j && angles@[b].0 == angles@[i as int].0 ==> angles@[b].1
                    == angles@[i as int].1,
            decreases i - j,
        {
            if angles[j].0 == angles[i].0 && angles[j].1 != angles[i].1 {
                assert(angles@[j as int].0 == angles@[i as int].0 && angles@[j as int].1 != angles@[i as int].1);
                return false;
            }
            j += 1;
        }
        i += 1;
    }
    true
}

fn owners_unambiguous(faces: &Vec<Face>) -> (r: bool)
    ensures
        r == !owners_ambiguous(faces_model(faces@)),
{
    let ghost fm = faces_model(faces@);
    let mut f: usize = 0;
    while f < faces.len()
        invariant
            fm == faces_model(faces@),
            f <= faces.len(),
            forall|a: int, k: int|
                0 <= a < f && 0 <= k < fm[a].edges.len() ==> owner_list(fm, #[trigger] fm[a].edges[k]).len()
                    <= 2,
        decreases faces.len() - f,
    {
        let mut k: usize = 0;
        while k < faces[f].edges.len()
            invariant
                fm == faces_model(faces@),
                f < faces.len(),
                k <= fm[f as int].edges.len(),
                forall|a: int, b: int|
                    0 <= a < f && 0 <= b < fm[a].edges.len() ==> owner_list(fm, #[trigger] fm[a].edges[b]).len()
                        <= 2,
                forall|b: int| 0 <= b < k ==> owner_list(fm, #[trigger] fm[f as int].edges[b]).len() <= 2,
            decreases fm[f as int].edges.len() - k,
        {
            let e = faces[f].edges[k];
            let ol = owners_of(faces, e);
            if ol.len() > 2 {
                proof {
                    assert(fm[f as int].edges[k as int] == e);
                    assert(owner_list(fm, fm[f as int].edges[k as int]).len() > 2);
                }
                return false;
            }
            k += 1;
        }
        f += 1;
    }
    true
}

fn zero_pairs(faces: &Vec<Face>, angles: &Vec<(EdgeId, u64)>) -> (pairs: Vec<(FaceId, FaceId)>)
    ensures
        pairs_cover(faces_model(faces@), angles@, pairs@, faces@.len() as int),
{
    let ghost fm = faces_model(faces@);
    let mut pairs: Vec<(FaceId, FaceId)> = Vec::new();
    let mut f: usize = 0;
    while f < faces.len()
        invariant
            fm == faces_model(faces@),
            f <= faces.len(),
            pairs_cover(fm, angles@, pairs@, f as int),
        decreases faces.len() - f,
    {
        let mut k: usize = 0;
        while k < faces[f].edges.len()
            invariant
                fm == faces_model(faces@),
                f < faces.len(),
                k <= fm[f as int].edges.len(),
                pairs_cover(fm, angles@, pairs@, f as int),
                forall|b: int|
                    0 <= b < k && zero_hinge(fm, angles@, #[trigger] fm[f as int].edges[b])
                        ==> pairs@.contains(
                        (
                            owner_list(fm, fm[f as int].edges[b])[0],
                            owner_list(fm, fm[f as int].edges[b])[1],
                        ),
                    ),
            decreases fm[f as int].edges.len() - k,
        {
            let e = faces[f].edges[k];
            proof {
                assert(fm[f as int].edges[k as int] == e);
            }
            let ol = owners_of(faces, e);
            let a = angle_lookup(angles, e);
            let zero = match a {
                Some(bits) => bits == 0 || bits == 0x8000_0000_0000_0000u64,
                None => false,
            };
            if ol.len() == 2 && zero {
                let ghost before = pairs@;
                let pr = (ol[0], ol[1]);
                proof {
                    assert(zero_hinge(fm, angles@, fm[f as int].edges[k as int]));
                    assert(zero_pair(fm, angles@, pr));
                }
                pairs.push(pr);
                proof {
                    assert(pairs@ == before.push(pr));
                    assert forall|p: int| 0 <= p < pairs@.len() implies zero_pair(
                        fm,
                        angles@,
                        #[trigger] pairs@[p],
                    ) by {
                        if p < before.len() {
                            assert(pairs@[p] == before[p]);
                        }
                    }
                    assert forall|x: (FaceId, FaceId)| before.contains(x) implies pairs@.contains(x) by {
                        crate::steps::lemma_push_contains(before, pr, x);
                    }
                    crate::steps::lemma_push_contains(before, pr, pr);
                }
            }
            k += 1;
        }
        proof {
            assert forall|a: int, b: int|
                0 <= a < f + 1 && 0 <= b < fm[a].edges.len() && zero_hinge(
                    fm,
                    angles@,
                    #[trigger] fm[a].edges[b],
                ) implies pairs@.contains(
                (owner_list(fm, fm[a].edges[b])[0], owner_list(fm, fm[a].edges[b])[1]),
            ) by {
                if a == f {
                    assert(zero_hinge(fm, angles@, fm[f as int].edges[b]));
                }
            }
        }
        f += 1;
    }
    pairs
}

/// A pair with exactly one member in `sel`, and its other member.
fn find_unbalanced(pairs: &Vec<(FaceId, FaceId)>, sel: &Vec<FaceId>) -> (r: Option<(usize, FaceId)>)
    ensures
        r is None ==> pairs_balanced(pairs@, sel@.to_set()),
        r matches Some(found) ==> found.0 < pairs@.len() && !sel@.contains(found.1) && (
        (sel@.contains(pairs@[found.0 as int].0) && pairs@[found.0 as int].1 == found.1) || (
        sel@.contains(pairs@[found.0 as int].1) && pairs@[found.0 as int].0 == found.1)),
{
    let mut p: usize = 0;
    while p < pairs.len()
        invariant
            p <= pairs.len(),
            forall|q: int|
                0 <= q < p ==> (sel@.contains((#[trigger] pairs@[q]).0) == sel@.contains(pairs@[q].1)),
        decreases pairs.len() - p,
    {
        let (a, b) = pairs[p];
        let ia = contains_face(sel, a);
        let ib = contains_face(sel, b);
        if ia && !ib {
            return Some((p, b));
        }
        if ib && !ia {
            return Some((p, a));
        }
        p += 1;
    }
    proof {
        assert forall|q: int| 0 <= q < pairs@.len() implies (sel@.to_set().contains(
            (#[trigger] pairs@[q]).0,
        ) == sel@.to_set().contains(pairs@[q].1)) by {
            assert(sel@.contains(pairs@[q].0) == sel@.contains(pairs@[q].1));
        }
    }
    None
}

proof fn lemma_balanced_is_closed(
    faces: Seq<FaceModel>,
    angles: Seq<(EdgeId, u64)>,
    pairs: Seq<(FaceId, FaceId)>,
    s: Set<FaceId>,
)
    requires
        pairs_cover(faces, angles, pairs, faces.len() as int),
        pairs_balanced(pairs, s),
    ensures
        closed_set(s, faces, angles),
{
    assert forall|a: int, b: int|
        0 <= a < faces.len() && 0 <= b < faces[a].edges.len() && zero_hinge(
            faces,
            angles,
            #[trigger] faces[a].edges[b],
        ) implies (s.contains(owner_list(faces, faces[a].edges[b])[0]) <==> s.contains(
        owner_list(faces, faces[a].edges[b])[1],
    )) by {
        let pr = (owner_list(faces, faces[a].edges[b])[0], owner_list(faces, faces[a].edges[b])[1]);
        assert(pairs.contains(pr));
        let q = choose|q: int| 0 <= q < pairs.len() && pairs[q] == pr;
        assert(s.contains(pairs[q].0) == s.contains(pairs[q].1));
    }
}

/// The faces reachable from `seed` over the unfolded hinges listed in `pairs`.
fn closure(
    faces: &Vec<Face>,
    angles: &Vec<(EdgeId, u64)>,
    pairs: &Vec<(FaceId, FaceId)>,
    seed: FaceId,
) -> (sel: Vec<FaceId>)
    requires
        pairs_cover(faces_model(faces@), angles@, pairs@, faces@.len() as int),
    ensures
        is_component(sel@.to_set(), seed, faces_model(faces@), angles@),
{
    let ghost fm = faces_model(faces@);
    let mut sel: Vec<FaceId> = Vec::new();
    sel.push(seed);
    proof {
        assert(sel@[0] == seed);
        assert forall|t: Set<FaceId>| #[trigger]
            closed_set(t, fm, angles@) && t.contains(seed) implies sel@.to_set().subset_of(t) by {
            assert forall|x: FaceId| sel@.to_set().contains(x) implies t.contains(x) by {
                let q = choose|q: int| 0 <= q < sel@.len() && sel@[q] == x;
                assert(q == 0);
            }
        }
    }
    loop
        invariant
            fm == faces_model(faces@),
            pairs_cover(fm, angles@, pairs@, fm.len() as int),
            sel@.to_set().contains(seed),
            forall|t: Set<FaceId>| #[trigger]
                closed_set(t, fm, angles@) && t.contains(seed) ==> sel@.to_set().subset_of(t),
        ensures
            is_component(sel@.to_set(), seed, fm, angles@),
        decreases pairs@.len() - count_both(pairs@, sel@.to_set()),
    {
        match find_unbalanced(pairs, &sel) {
            None => {
                proof {
                    lemma_balanced_is_closed(fm, angles@, pairs@, sel@.to_set());
                }
                break;
            },
            Some(found) => {
                let x = found.1;
                let q = found.0;
                let ghost old_seq = sel@;
                let ghost old_set = sel@.to_set();
                proof {
                    lemma_count_mono(pairs@, old_set, old_set);
                }
                sel.push(x);
                proof {
                    let new_set = sel@.to_set();
                    assert(sel@ == old_seq.push(x));
                    assert forall|y: FaceId| new_set.contains(y) == (old_set.contains(y) || y == x) by {
                        crate::steps::lemma_push_contains(old_seq, x, y);
                    }
                    assert(old_set.subset_of(new_set));
                    assert(zero_pair(fm, angles@, pairs@[q as int]));
                    let (a0, b0) = choose|a0: int, b0: int|
                        0 <= a0 < fm.len() && 0 <= b0 < fm[a0].edges.len() && zero_hinge(
                            fm,
                            angles@,
                            #[trigger] fm[a0].edges[b0],
                        ) && pairs@[q as int] == (
                            owner_list(fm, fm[a0].edges[b0])[0],
                            owner_list(fm, fm[a0].edges[b0])[1],
                        );
                    assert forall|t: Set<FaceId>| #[trigger]
                        closed_set(t, fm, angles@) && t.contains(seed) implies new_set.subset_of(t) by {
                        assert(old_set.subset_of(t));
                        assert(zero_hinge(fm, angles@, fm[a0].edges[b0]));
                        assert(t.contains(pairs@[q as int].0) == t.contains(pairs@[q as int].1));
                        if old_seq.contains(pairs@[q as int].0) {
                            assert(old_set.contains(pairs@[q as int].0));
                        } else {
                            assert(old_set.contains(pairs@[q as int].1));
                        }
                        assert(t.contains(x));
                    }
                    assert(!old_set.contains(x));
                    assert(!(old_set.contains(pairs@[q as int].0) && old_set.contains(pairs@[q as int].1)));
                    assert(new_set.contains(pairs@[q as int].0) && new_set.contains(pairs@[q as int].1)) by {
                        if old_seq.contains(pairs@[q as int].0) {
                            assert(old_set.contains(pairs@[q as int].0));
                        } else {
                            assert(old_set.contains(pairs@[q as int].1));
                        }
                    }
                    lemma_count_grows(pairs@, old_set, new_set, q as int);
                    lemma_count_mono(pairs@, new_set, new_set);
                }
            },
        }
    }
    sel
}

fn surface_of(faces: &Vec<Face>, sel: &Vec<FaceId>) -> (r: Vec<FaceId>)
    ensures
        r@ == faces_in(faces_model(faces@), sel@.to_set()),
{
    let ghost fm = faces_model(faces@);
    let ghost s = sel@.to_set();
    let mut out: Vec<FaceId> = Vec::new();
    let mut f: usize = 0;
    while f < faces.len()
        invariant
            fm == faces_model(faces@),
            s == sel@.to_set(),
            f <= faces.len(),
            out@ == faces_in(fm.take(f as int), s),
        decreases faces.len() - f,
    {
        proof {
            assert(fm.take(f + 1).drop_last() =~= fm.take(f as int));
        }
        let id = faces[f].id;
        if contains_face(sel, id) {
            let ghost before = out@;
            out.push(id);
            proof {
                assert(out@ =~= before + seq![fm[f as int].id]);
            }
        } else {
            proof {
                assert(out@ =~= faces_in(fm.take(f as int), s) + Seq::<FaceId>::empty());
            }
        }
        f += 1;
    }
    proof {
        assert(fm.take(faces@.len() as int) =~= fm);
    }
    out
}

/// The hinges round the faces `sel`, each once, with their angles.
pub open spec fn boundary_listed(
    faces: Seq<Face>,
    angles: Seq<(EdgeId, u64)>,
    s: Set<FaceId>,
    boundary: Seq<(EdgeId, Option<u64>)>,
    upto: int,
) -> bool {
    &&& forall|i: int, j: int|
        0 <= i < j < boundary.len() ==> #[trigger] boundary[i].0 != #[trigger] boundary[j].0
    &&& forall|i: int|
        0 <= i < boundary.len() ==> boundary_hinge(faces_model(faces), s, (#[trigger] boundary[i]).0)
            && boundary[i].1 == angle_of(angles, boundary[i].0) && exists|a: int, b: int|
            0 <= a < faces.len() && 0 <= b < faces[a].edges@.len() && #[trigger] faces[a].edges@[b]
                == boundary[i].0
    &&& forall|a: int, b: int|
        0 <= a < upto && 0 <= b < faces[a].edges@.len() && boundary_hinge(
            faces_model(faces),
            s,
            #[trigger] faces[a].edges@[b],
        ) ==> exists|i: int| 0 <= i < boundary.len() && (#[trigger] boundary[i]).0 == faces[a].edges@[b]
}

fn boundary_of(faces: &Vec<Face>, angles: &Vec<(EdgeId, u64)>, sel: &Vec<FaceId>) -> (r: Vec<
    (EdgeId, Option<u64>),
>)
    ensures
        boundary_listed(faces@, angles@, sel@.to_set(), r@, faces@.len() as int),
{
    let ghost fm = faces_model(faces@);
    let ghost s = sel@.to_set();
    let mut boundary: Vec<(EdgeId, Option<u64>)> = Vec::new();
    let mut f: usize = 0;
    while f < faces.len()
        invariant
            fm == faces_model(faces@),
            s == sel@.to_set(),
            f <= faces.len(),
            boundary_listed(faces@, angles@, s, boundary@, f as int),
        decreases faces.len() - f,
    {
        let mut k: usize = 0;
        while k < faces[f].edges.len()
            invariant
                fm == faces_model(faces@),
                s == sel@.to_set(),
                f < faces.len(),
                k <= faces@[f as int].edges@.len(),
                boundary_listed(faces@, angles@, s, boundary@, f as int),
                forall|b: int|
                    0 <= b < k && boundary_hinge(fm, s, #[trigger] faces@[f as int].edges@[b])
                        ==> exists|i: int| 0 <= i < boundary@.len() && (#[trigger] boundary@[i]).0 == faces@[f as int].edges@[b],
            decreases faces@[f as int].edges@.len() - k,
        {
            let e = faces[f].edges[k];
            proof {
                assert(faces@[f as int].edges@[k as int] == e);
            }
            let ol = owners_of(faces, e);
            let mut listed = false;
            let mut m: usize = 0;
            while m < boundary.len()
                invariant
                    m <= boundary.len(),
                    listed ==> exists|i: int| 0 <= i < boundary@.len() && (#[trigger] boundary@[i]).0 == e,
                    !listed ==> forall|i: int| 0 <= i < m ==> (#[trigger] boundary@[i]).0 != e,
                decreases boundary.len() - m,
            {
                if boundary[m].0 == e {
                    proof {
                        assert(boundary@[m as int].0 == e);
                    }
                    listed = true;
                }
                m += 1;
            }
            if ol.len() == 2 && !listed {
                let in0 = contains_face(sel, ol[0]);
                let in1 = contains_face(sel, ol[1]);
                if in0 != in1 {
                    let angle = angle_lookup(angles, e);
                    let ghost before = boundary@;
                    boundary.push((e, angle));
                    proof {
                        assert(boundary_hinge(fm, s, e));
                        assert(boundary@ == before.push((e, angle)));
                        assert forall|i: int, j: int|
                            0 <= i < j < boundary@.len() implies #[trigger] boundary@[i].0
                            != #[trigger] boundary@[j].0 by {
                            if j < before.len() {
                                assert(boundary@[i] == before[i] && boundary@[j] == before[j]);
                            } else {
                                assert(boundary@[i] == before[i]);
                            }
                        }
                        assert forall|i: int| 0 <= i < boundary@.len() implies boundary_hinge(
                            fm,
                            s,
                            (#[trigger] boundary@[i]).0,
                        ) && boundary@[i].1 == angle_of(angles@, boundary@[i].0) && exists|
                            a: int,
                            b: int,
                        |
                            0 <= a < faces@.len() && 0 <= b < faces@[a].edges@.len()
                                && #[trigger] faces@[a].edges@[b] == boundary@[i].0 by {
                            if i < before.len() {
                                assert(boundary@[i] == before[i]);
                            } else {
                                assert(faces@[f as int].edges@[k as int] == boundary@[i].0);
                            }
                        }
                        assert forall|a: int, b: int|
                            0 <= a < f && 0 <= b < faces@[a].edges@.len() && boundary_hinge(
                                fm,
                                s,
                                #[trigger] faces@[a].edges@[b],
                            ) implies exists|i: int|
                                0 <= i < boundary@.len() && (#[trigger] boundary@[i]).0
                                    == faces@[a].edges@[b] by {
                            let i = choose|i: int| 0 <= i < before.len() && (#[trigger] before[i]).0 == faces@[a].edges@[b];
                            assert(boundary@[i] == before[i]);
                        }
                        assert forall|b: int|
                            0 <= b < k + 1 && boundary_hinge(fm, s, #[trigger] faces@[f as int].edges@[b])
                                implies exists|i: int|
                                0 <= i < boundary@.len() && (#[trigger] boundary@[i]).0
                                    == faces@[f as int].edges@[b] by {
                            if b < k {
                                let i = choose|i: int| 0 <= i < before.len() && (#[trigger] before[i]).0 == faces@[f as int].edges@[b];
                                assert(boundary@[i] == before[i]);
                            } else {
                                assert(boundary@[before.len() as int].0 == e);
                            }
                        }
                    }
                } else {
                    proof {
                        assert(!boundary_hinge(fm, s, e));
                    }
                }
            } else {
                proof {
                    if ol.len() != 2 {
                        assert(!boundary_hinge(fm, s, e));
                    }
                }
            }
            k += 1;
        }
        proof {
            assert forall|a: int, b: int|
                0 <= a < f + 1 && 0 <= b < faces@[a].edges@.len() && boundary_hinge(
                    fm,
                    s,
                    #[trigger] faces@[a].edges@[b],
                ) implies exists|i: int|
                    0 <= i < boundary@.len() && (#[trigger] boundary@[i]).0 == faces@[a].edges@[b] by {
                if a == f {
                    assert(boundary_hinge(fm, s, faces@[f as int].edges@[b]));
                }
            }
        }
        f += 1;
    }
    boundary
}

/// Finds the top sheet under a point of the material whose coordinates have the bit
/// patterns `point`, given the hinge angles of the pose (bit patterns, by edge), the
/// faces of the paper and the faces that contain the point, the first one under the
/// point first.
pub fn top_surface(
    point: (u64, u64),
    angles: &Vec<(EdgeId, u64)>,
    faces: &Vec<Face>,
    candidates: &Vec<FaceId>,
) -> (r: Result<TopSurface, SpatialCreaseOnlyError>)
    ensures
        !(is_finite_bits(point.0) && is_finite_bits(point.1)) ==> r == Err::<
            TopSurface,
            SpatialCreaseOnlyError,
        >(SpatialCreaseOnlyError::NonFiniteInput),
        is_finite_bits(point.0) && is_finite_bits(point.1) && angles_invalid(angles@) ==> r == Err::<
            TopSurface,
            SpatialCreaseOnlyError,
        >(SpatialCreaseOnlyError::InvalidTopRelation),
        is_finite_bits(point.0) && is_finite_bits(point.1) && !angles_invalid(angles@)
            && owners_ambiguous(faces_model(faces@)) ==> r == Err::<TopSurface, SpatialCreaseOnlyError>(
            SpatialCreaseOnlyError::AmbiguousTopSurface,
        ),
        is_finite_bits(point.0) && is_finite_bits(point.1) && !angles_invalid(angles@)
            && !owners_ambiguous(faces_model(faces@)) && candidates@.len() == 0 ==> r == Err::<
            TopSurface,
            SpatialCreaseOnlyError,
        >(SpatialCreaseOnlyError::MaterialKeepSidePointOutsidePaper),
        is_finite_bits(point.0) && is_finite_bits(point.1) && !angles_invalid(angles@)
            && !owners_ambiguous(faces_model(faces@)) && candidates@.len() > 0 ==> ({
            let s = component(candidates@[0], faces_model(faces@), angles@);
            &&& is_component(s, candidates@[0], faces_model(faces@), angles@)
            &&& (exists|c: int| 0 <= c < candidates@.len() && !s.contains(#[trigger] candidates@[c]))
                ==> r == Err::<TopSurface, SpatialCreaseOnlyError>(
                SpatialCreaseOnlyError::AmbiguousTopSurface,
            )
            &&& !(exists|c: int| 0 <= c < candidates@.len() && !s.contains(#[trigger] candidates@[c]))
                ==> (r matches Ok(t) && t.surface_faces@ == faces_in(faces_model(faces@), s)
                && boundary_listed(faces@, angles@, s, t.boundary@, faces@.len() as int))
        }),
{
    let ghost fm = faces_model(faces@);
    if !(finite_bits(point.0) && finite_bits(point.1)) {
        return Err(SpatialCreaseOnlyError::NonFiniteInput);
    }
    if !angles_valid(angles) {
        return Err(SpatialCreaseOnlyError::InvalidTopRelation);
    }
    if !owners_unambiguous(faces) {
        return Err(SpatialCreaseOnlyError::AmbiguousTopSurface);
    }
    if candidates.len() == 0 {
        return Err(SpatialCreaseOnlyError::MaterialKeepSidePointOutsidePaper);
    }
    let seed = candidates[0];
    let pairs = zero_pairs(faces, angles);
    let sel = closure(faces, angles, &pairs, seed);
    let ghost s = sel@.to_set();
    proof {
        lemma_component_unique(s, component(seed, fm, angles@), seed, fm, angles@);
    }
    let mut c: usize = 0;
    while c < candidates.len()
        invariant
            c <= candidates.len(),
            s == sel@.to_set(),
            forall|m: int| 0 <= m < c ==> s.contains(#[trigger] candidates@[m]),
            is_finite_bits(point.0) && is_finite_bits(point.1),
            !angles_invalid(angles@),
            !owners_ambiguous(faces_model(faces@)),
            candidates@.len() > 0,
            s == component(candidates@[0], faces_model(faces@), angles@),
            is_component(s, candidates@[0], faces_model(faces@), angles@),
        decreases candidates.len() - c,
    {
        if !contains_face(&sel, candidates[c]) {
            proof {
                assert(!s.contains(candidates@[c as int]));
            }
            return Err(SpatialCreaseOnlyError::AmbiguousTopSurface);
        }
        c += 1;
    }
    let surface_faces = surface_of(faces, &sel);
    let boundary = boundary_of(faces, angles, &sel);
    Ok(TopSurface { surface_faces, boundary })
}

/// Hands out the observation of the top sheet once: only the top sheet is ever
/// observed (a deeper one is ambiguous), and a second request finds nothing left.
pub fn observe_from_top<T>(observation: &mut Option<T>, depth: usize) -> (r: Result<
    T,
    SpatialCreaseOnlyError,
>)
    ensures
        depth != 0 ==> r == Err::<T, SpatialCreaseOnlyError>(SpatialCreaseOnlyError::AmbiguousTopSurface)
            && *final(observation) == *old(observation),
        depth == 0 ==> *final(observation) is None && match *old(observation) {
            Some(o) => r == Ok::<T, SpatialCreaseOnlyError>(o),
            None => r == Err::<T, SpatialCreaseOnlyError>(SpatialCreaseOnlyError::AmbiguousTopSurface),
        },
{
    if depth != 0 {
        return Err(SpatialCreaseOnlyError::AmbiguousTopSurface);
    }
    match observation.take() {
        Some(o) => Ok(o),
        None => Err(SpatialCreaseOnlyError::AmbiguousTopSurface),
    }
}

} // verus!

//! Fold steps that reproduce a pose, and the notice about flat folds that did not come
//! out flat.
//!
//! Angles are binary64 values handled by their bit patterns. Whether a target asks for
//! a flat fold is decided on those bits, exactly as the floating-point test
//! `|(|t| - 180)| <= 1e-6` decides it (see [`is_flat_target`]).
use vstd::prelude::*;
use vstd::string::*;

use crate::model::{
    CreasePattern, CreasePatternModel, DriverLine, Edge, EdgeId, EdgeKind, FoldStep, FoldStepModel,
    TechniqueKind,
};
use crate::steps::{find_last_vertex, last_vertex};

verus! {

/// A requested hinge angle: the hinge and the bit pattern of its angle in degrees.
#[derive(Clone, Copy, Debug, PartialEq, Eq, Structural)]
pub struct PoseDriver {
    pub edge_id: EdgeId,
    pub target_angle_bits: u64,
}

/// "The crease to reproduce the folded shape is missing".
pub open spec fn msg_pose_crease_missing() -> Seq<char> {
    "折った形を再現する折り目が見つかりません"@
}

/// "An end of the crease to reproduce the folded shape is missing".
pub open spec fn msg_pose_crease_end_missing() -> Seq<char> {
    "折った形を再現する折り目の端が見つかりません"@
}

/// "Reproduce the folded shape, then crease".
pub open spec fn pose_step_note() -> Seq<char> {
    "折った形を再現してから折り目を付ける"@
}

/// The last edge of the list with identifier `id`, if any.
pub open spec fn last_edge(es: Seq<Edge>, id: EdgeId) -> Option<Edge>
    decreases es.len(),
{
    if es.len() == 0 {
        None
    } else if es.last().id == id {
        Some(es.last())
    } else {
        last_edge(es.drop_last(), id)
    }
}

/// The driver line of one requested angle: the segment of its edge and the angle as
/// requested, unchanged.
pub open spec fn pose_line(cp: CreasePatternModel, d: PoseDriver) -> Result<DriverLine, Seq<char>> {
    match last_edge(cp.edges, d.edge_id) {
        None => Err(msg_pose_crease_missing()),
        Some(e) => match (last_vertex(cp.vertices, e.v0), last_vertex(cp.vertices, e.v1)) {
            (Some(a), Some(b)) => Ok(
                DriverLine {
                    ax_bits: a.x_bits,
                    ay_bits: a.y_bits,
                    bx_bits: b.x_bits,
                    by_bits: b.y_bits,
                    target_angle_bits: d.target_angle_bits,
                },
            ),
            _ => Err(msg_pose_crease_end_missing()),
        },
    }
}

/// The driver lines of the requested angles, in order, or the message of the first that
/// cannot be placed.
pub open spec fn pose_lines(cp: CreasePatternModel, ds: Seq<PoseDriver>) -> Result<Seq<DriverLine>, Seq<char>>
    decreases ds.len(),
{
    if ds.len() == 0 {
        Ok(seq![])
    } else {
        match pose_lines(cp, ds.drop_last()) {
            Err(e) => Err(e),
            Ok(lines) => match pose_line(cp, ds.last()) {
                Err(e) => Err(e),
                Ok(line) => Ok(lines.push(line)),
            },
        }
    }
}

fn find_last_edge(es: &Vec<Edge>, id: EdgeId) -> (r: Option<Edge>)
    ensures
        r == last_edge(es@, id),
{
    let mut k: usize = es.len();
    proof {
        assert(es@.take(k as int) =~= es@);
    }
    while k > 0
        invariant
            k <= es.len(),
            last_edge(es@, id) == last_edge(es@.take(k as int), id),
        decreases k,
    {
        proof {
            assert(es@.take(k as int).drop_last() =~= es@.take(k - 1));
        }
        if es[k - 1].id == id {
            return Some(es[k - 1]);
        }
        k -= 1;
    }
    None
}

/// The pose step that reproduces a requested folded shape before a crease is put on
/// the top sheet: each requested angle is kept exactly as given, on the segment of its
/// edge. A request naming a missing edge or an edge with a missing end is refused.
pub fn pose_step_from_input(cp: &CreasePattern, drivers: &Vec<PoseDriver>) -> (r: Result<FoldStep, String>)
    ensures
        match pose_lines(cp@, drivers@) {
            Ok(lines) => r matches Ok(step) && step@ == (FoldStepModel {
                id: 0,
                kind: TechniqueKind::Pose,
                drivers: lines,
                note: pose_step_note(),
                extra: Seq::empty(),
            }),
            Err(e) => r matches Err(m) && m@ == e,
        },
{
    let mut lines: Vec<DriverLine> = Vec::new();
    let mut i: usize = 0;
    proof {
        assert(drivers@.take(0) =~= Seq::<PoseDriver>::empty());
    }
    while i < drivers.len()
        invariant
            i <= drivers.len(),
            pose_lines(cp@, drivers@.take(i as int)) == Ok::<Seq<DriverLine>, Seq<char>>(lines@),
        decreases drivers.len() - i,
    {
        let d = drivers[i];
        proof {
            assert(drivers@.take(i + 1).drop_last() =~= drivers@.take(i as int));
            assert(drivers@.take(i + 1).last() == d);
        }
        let e = match find_last_edge(&cp.edges, d.edge_id) {
            Some(e) => e,
            None => {
                proof {
                    lemma_pose_lines_stop(cp@, drivers@, i as int);
                }
                return Err(String::from_str("折った形を再現する折り目が見つかりません"));
            },
        };
        let a = find_last_vertex(&cp.vertices, e.v0);
        let b = find_last_vertex(&cp.vertices, e.v1);
        match (a, b) {
            (Some(a), Some(b)) => {
                lines.push(
                    DriverLine {
                        ax_bits: a.x_bits,
                        ay_bits: a.y_bits,
                        bx_bits: b.x_bits,
                        by_bits: b.y_bits,
                        target_angle_bits: d.target_angle_bits,
                    },
                );
            },
            _ => {
                proof {
                    lemma_pose_lines_stop(cp@, drivers@, i as int);
                }
                return Err(String::from_str("折った形を再現する折り目の端が見つかりません"));
            },
        }
        i += 1;
    }
    proof {
        assert(drivers@.take(drivers@.len() as int) =~= drivers@);
    }
    Ok(
        FoldStep {
            id: 0,
            kind: TechniqueKind::Pose,
            drivers: lines,
            note: String::from_str("折った形を再現してから折り目を付ける"),
            extra: String::new(),
        },
    )
}

/// Once a request fails, the whole list fails with the same message.
proof fn lemma_pose_lines_stop(cp: CreasePatternModel, ds: Seq<PoseDriver>, i: int)
    requires
        0 <= i < ds.len(),
        pose_lines(cp, ds.take(i)) is Ok,
        pose_line(cp, ds[i]) is Err,
    ensures
        pose_lines(cp, ds) == Err::<Seq<DriverLine>, Seq<char>>(pose_line(cp, ds[i])->Err_0),
    decreases ds.len() - i,
{
    assert(ds.take(i + 1).drop_last() =~= ds.take(i));
    assert(pose_lines(cp, ds.take(i + 1)) == Err::<Seq<DriverLine>, Seq<char>>(pose_line(cp, ds[i])->Err_0));
    lemma_pose_lines_err_extends(cp, ds, i + 1);
}

proof fn lemma_pose_lines_err_extends(cp: CreasePatternModel, ds: Seq<PoseDriver>, n: int)
    requires
        0 <= n <= ds.len(),
        pose_lines(cp, ds.take(n)) is Err,
    ensures
        pose_lines(cp, ds) == pose_lines(cp, ds.take(n)),
    decreases ds.len() - n,
{
    if n < ds.len() {
        assert(ds.take(n + 1).drop_last() =~= ds.take(n));
        lemma_pose_lines_err_extends(cp, ds, n + 1);
    } else {
        assert(ds.take(n) =~= ds);
    }
}

// ---------------------------------------------------------------------------
// Flat-fold notices
// ---------------------------------------------------------------------------
/// The smallest binary64 value not below `180 - 1e-6` (the `1e-6` of binary64).
pub const FLAT_LOW_BITS: u64 = 0x4066_7fff_fde7_210c;

/// The largest binary64 value not above `180 + 1e-6`.
pub const FLAT_HIGH_BITS: u64 = 0x4066_8000_0218_def4;

/// Whether the angle with bit pattern `bits` asks for a flat fold: it is finite and its
/// magnitude lies within `1e-6` of 180. Near 180 the subtraction `|t| - 180` is exact,
/// so the floating-point test holds exactly for the magnitudes from [`FLAT_LOW_BITS`] to
/// [`FLAT_HIGH_BITS`], and positive values are ordered as their bit patterns.
pub open spec fn is_flat_target(bits: u64) -> bool {
    FLAT_LOW_BITS <= (bits & 0x7fff_ffff_ffff_ffffu64) <= FLAT_HIGH_BITS
}

/// Whether the angle with bit pattern `bits` asks for a flat fold.
pub fn flat_target(bits: u64) -> (r: bool)
    ensures
        r == is_flat_target(bits),
{
    let magnitude = bits & 0x7fff_ffff_ffff_ffffu64;
    FLAT_LOW_BITS <= magnitude && magnitude <= FLAT_HIGH_BITS
}

/// The latest target requested for hinge `e` (a later request overrides an earlier one).
pub open spec fn latest_target(ds: Seq<PoseDriver>, e: EdgeId) -> Option<u64>
    decreases ds.len(),
{
    if ds.len() == 0 {
        None
    } else if ds.last().edge_id == e {
        Some(ds.last().target_angle_bits)
    } else {
        latest_target(ds.drop_last(), e)
    }
}

fn find_latest_target(ds: &Vec<PoseDriver>, e: EdgeId) -> (r: Option<u64>)
    ensures
        r == latest_target(ds@, e),
{
    let mut k: usize = ds.len();
    proof {
        assert(ds@.take(k as int) =~= ds@);
    }
    while k > 0
        invariant
            k <= ds.len(),
            latest_target(ds@, e) == latest_target(ds@.take(k as int), e),
        decreases k,
    {
        proof {
            assert(ds@.take(k as int).drop_last() =~= ds@.take(k - 1));
        }
        if ds[k - 1].edge_id == e {
            return Some(ds[k - 1].target_angle_bits);
        }
        k -= 1;
    }
    None
}

/// Whether a mountain or valley line is a crease.
pub open spec fn is_crease(e: Edge) -> bool {
    e.kind == EdgeKind::Mountain || e.kind == EdgeKind::Valley
}

/// The request folds every crease of the pattern flat (and there is at least one).
pub open spec fn requests_every_crease_flat(cp: CreasePatternModel, ds: Seq<PoseDriver>) -> bool {
    &&& exists|i: int| 0 <= i < cp.edges.len() && is_crease(#[trigger] cp.edges[i])
    &&& forall|i: int|
        0 <= i < cp.edges.len() && is_crease(#[trigger] cp.edges[i]) ==> (latest_target(
            ds,
            cp.edges[i].id,
        ) matches Some(t) && is_flat_target(t))
}

/// Whether a solved pose counts as touching itself for the flat-fold notice: always
/// when the final pose still intersects; and when contact was detected on the way,
/// unless the request folded every crease flat at once (sweeping all creases together
/// can touch half-way even in a work that folds flat).
pub fn pose_flat_fold_notice_intersects(
    cp: &CreasePattern,
    targets: &Vec<PoseDriver>,
    contact_detected: bool,
    final_intersects: bool,
) -> (r: bool)
    ensures
        r == (final_intersects || (contact_detected && !requests_every_crease_flat(cp@, targets@))),
{
    if final_intersects {
        return true;
    }
    if !contact_detected {
        return false;
    }
    let mut any_crease = false;
    let mut i: usize = 0;
    while i < cp.edges.len()
        invariant
            i <= cp.edges.len(),
            !final_intersects,
            contact_detected,
            any_crease == exists|k: int| 0 <= k < i && is_crease(#[trigger] cp@.edges[k]),
            forall|k: int|
                0 <= k < i && is_crease(#[trigger] cp@.edges[k]) ==> (latest_target(
                    targets@,
                    cp@.edges[k].id,
                ) matches Some(t) && is_flat_target(t)),
        decreases cp.edges.len() - i,
    {
        let e = cp.edges[i];
        let crease = match e.kind {
            EdgeKind::Mountain | EdgeKind::Valley => true,
            _ => false,
        };
        if crease {
            proof {
                assert(is_crease(cp@.edges[i as int]));
            }
            any_crease = true;
            let flat = match find_latest_target(targets, e.id) {
                Some(t) => flat_target(t),
                None => false,
            };
            if !flat {
                proof {
                    assert(!requests_every_crease_flat(cp@, targets@));
                }
                return true;
            }
        }
        i += 1;
    }
    !any_crease
}

/// Hinge `e` is checked by the flat-fold notice: its latest target asks for a flat fold
/// and the pattern's edge `e` (its last entry) is not a border.
pub open spec fn is_flat_hinge(cp: CreasePatternModel, ds: Seq<PoseDriver>, e: EdgeId) -> bool {
    &&& latest_target(ds, e) matches Some(t) && is_flat_target(t)
    &&& last_edge(cp.edges, e) matches Some(edge) && edge.kind != EdgeKind::Border
}

/// The kind a line gets in the pattern the flat-fold check runs on: borders stay, a
/// flat-requested hinge becomes a mountain for a target of positive sign and a valley
/// otherwise, and every other line becomes an auxiliary line.
pub open spec fn requested_kind(cp: CreasePatternModel, ds: Seq<PoseDriver>, edge: Edge) -> EdgeKind {
    if edge.kind == EdgeKind::Border {
        EdgeKind::Border
    } else if is_flat_hinge(cp, ds, edge.id) {
        if latest_target(ds, edge.id).unwrap() >> 63u64 == 0 {
            EdgeKind::Mountain
        } else {
            EdgeKind::Valley
        }
    } else {
        EdgeKind::Aux
    }
}

fn flat_hinge(cp: &CreasePattern, targets: &Vec<PoseDriver>, e: EdgeId) -> (r: Option<u64>)
    ensures
        r is Some <==> is_flat_hinge(cp@, targets@, e),
        r matches Some(t) ==> latest_target(targets@, e) == Some(t),
{
    match find_latest_target(targets, e) {
        None => None,
        Some(t) => {
            if !flat_target(t) {
                return None;
            }
            match find_last_edge(&cp.edges, e) {
                Some(edge) => {
                    match edge.kind {
                        EdgeKind::Border => None,
                        _ => Some(t),
                    }
                },
                None => None,
            }
        },
    }
}

/// The hinges the flat-fold notice checks, each once, with their latest targets, in the
/// order in which they are first requested.
pub fn flat_hinges(cp: &CreasePattern, targets: &Vec<PoseDriver>) -> (r: Vec<(EdgeId, u64)>)
    ensures
        forall|i: int, j: int| 0 <= i < j < r@.len() ==> #[trigger] r@[i].0 != #[trigger] r@[j].0,
        forall|i: int|
            0 <= i < r@.len() ==> is_flat_hinge(cp@, targets@, (#[trigger] r@[i]).0) && latest_target(
                targets@,
                r@[i].0,
            ) == Some(r@[i].1),
        forall|k: int|
            0 <= k < targets@.len() && is_flat_hinge(cp@, targets@, (#[trigger] targets@[k]).edge_id)
                ==> exists|i: int| 0 <= i < r@.len() && (#[trigger] r@[i]).0 == targets@[k].edge_id,
{
    let mut out: Vec<(EdgeId, u64)> = Vec::new();
    let mut k: usize = 0;
    while k < targets.len()
        invariant
            k <= targets.len(),
            forall|i: int, j: int| 0 <= i < j < out@.len() ==> #[trigger] out@[i].0 != #[trigger] out@[j].0,
            forall|i: int|
                0 <= i < out@.len() ==> is_flat_hinge(cp@, targets@, (#[trigger] out@[i]).0)
                    && latest_target(targets@, out@[i].0) == Some(out@[i].1),
            forall|m: int|
                0 <= m < k && is_flat_hinge(cp@, targets@, (#[trigger] targets@[m]).edge_id)
                    ==> exists|i: int| 0 <= i < out@.len() && (#[trigger] out@[i]).0 == targets@[m].edge_id,
        decreases targets.len() - k,
    {
        let e = targets[k].edge_id;
        let mut listed = false;
        let mut m: usize = 0;
        while m < out.len()
            invariant
                m <= out.len(),
                listed ==> exists|i: int| 0 <= i < out@.len() && (#[trigger] out@[i]).0 == e,
                !listed ==> forall|i: int| 0 <= i < m ==> (#[trigger] out@[i]).0 != e,
            decreases out.len() - m,
        {
            if out[m].0 == e {
                proof {
                    assert(out@[m as int].0 == e);
                }
                listed = true;
            }
            m += 1;
        }
        if !listed {
            match flat_hinge(cp, targets, e) {
                Some(t) => {
                    let ghost before = out@;
                    out.push((e, t));
                    proof {
                        assert forall|i: int, j: int| 0 <= i < j < out@.len() implies #[trigger] out@[i].0
                            != #[trigger] out@[j].0 by {
                            if j < before.len() {
                                assert(out@[i] == before[i] && out@[j] == before[j]);
                            } else {
                                assert(out@[i] == before[i]);
                            }
                        }
                        assert forall|i: int| 0 <= i < out@.len() implies is_flat_hinge(
                            cp@,
                            targets@,
                            (#[trigger] out@[i]).0,
                        ) && latest_target(targets@, out@[i].0) == Some(out@[i].1) by {
                            if i < before.len() {
                                assert(out@[i] == before[i]);
                            }
                        }
                        assert forall|m: int|
                            0 <= m < k + 1 && is_flat_hinge(cp@, targets@, (#[trigger] targets@[m]).edge_id)
                                implies exists|i: int| 0 <= i < out@.len() && (#[trigger] out@[i]).0 == targets@[m].edge_id by {
                            if m < k {
                                let i = choose|i: int| 0 <= i < before.len() && (#[trigger] before[i]).0 == targets@[m].edge_id;
                                assert(out@[i] == before[i]);
                            } else {
                                assert(out@[before.len() as int].0 == e);
                            }
                        }
                    }
                },
                None => {},
            }
        }
        k += 1;
    }
    out
}

/// The pattern the flat-fold check runs on: `cp` with each line given its
/// [`requested_kind`].
pub fn requested_pattern(cp: &CreasePattern, targets: &Vec<PoseDriver>) -> (r: CreasePattern)
    ensures
        r@.vertices == cp@.vertices,
        r@.next_vertex_id == cp@.next_vertex_id,
        r@.next_edge_id == cp@.next_edge_id,
        r@.edges.len() == cp@.edges.len(),
        forall|i: int|
            0 <= i < cp@.edges.len() ==> #[trigger] r@.edges[i] == (Edge {
                kind: requested_kind(cp@, targets@, cp@.edges[i]),
                ..cp@.edges[i]
            }),
{
    let mut edges: Vec<Edge> = Vec::new();
    let mut i: usize = 0;
    while i < cp.edges.len()
        invariant
            i <= cp.edges.len(),
            edges@.len() == i,
            forall|m: int|
                0 <= m < i ==> #[trigger] edges@[m] == (Edge {
                    kind: requested_kind(cp@, targets@, cp@.edges[m]),
                    ..cp@.edges[m]
                }),
        decreases cp.edges.len() - i,
    {
        let e = cp.edges[i];
        let kind = match e.kind {
            EdgeKind::Border => EdgeKind::Border,
            _ => match flat_hinge(cp, targets, e.id) {
                Some(t) => if t >> 63u64 == 0 {
                    EdgeKind::Mountain
                } else {
                    EdgeKind::Valley
                },
                None => EdgeKind::Aux,
            },
        };
        edges.push(Edge { kind, ..e });
        i += 1;
    }
    let vertices = cp.vertices.clone();
    proof {
        assert(vertices@ =~= cp.vertices@);
    }
    CreasePattern { vertices, edges, next_vertex_id: cp.next_vertex_id, next_edge_id: cp.next_edge_id }
}

} // verus!

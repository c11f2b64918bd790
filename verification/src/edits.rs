//! Editing operations on a candidate document, before anything is committed.
//!
//! Operations on many targets succeed partially and warn about the targets they skip;
//! an operation on a single impossible target fails and changes nothing.
use vstd::prelude::*;
use vstd::string::*;

use crate::kernel::{CreaseKernel, Point};
use crate::model::{
    CreasePattern, DisplaySettings, Document, DocumentModel, Edge, EdgeId, EdgeKind, Paper,
    VertexId, MAX_GRID_DIVISIONS, MIN_GRID_DIVISIONS,
};
use crate::text::{decimal, message_with_number, push_decimal};

verus! {

/// One editing operation of the crease pattern, the sheet or the display.
#[derive(Debug)]
pub enum EditOp {
    /// Draw a segment; drawing over an existing line exactly still succeeds.
    AddSegment { a: Point, b: Point, kind: EdgeKind },
    /// Remove edges; border edges are kept, with a warning.
    RemoveEdges { ids: Vec<EdgeId> },
    /// Change the kind of edges; border edges keep their kind and no edge becomes a
    /// border, with a warning each; a missing identifier is warned about.
    SetEdgeKind { ids: Vec<EdgeId>, kind: EdgeKind },
    /// Move a vertex; a missing vertex is warned about and nothing changes.
    MoveVertex { id: VertexId, to: Point },
    /// Change the sheet; refused while fold lines exist.
    SetPaper { paper: Paper },
    /// Replace the whole crease pattern; the fold sequence is emptied.
    ReplaceCreasePattern { cp: CreasePattern },
    /// Change the display settings; the grid size is clamped into its range, with a
    /// warning.
    SetDisplay { display: DisplaySettings },
}

/// The texts of a list of messages.
pub open spec fn texts(ws: Seq<String>) -> Seq<Seq<char>> {
    ws.map_values(|s: String| s@)
}

// ---------------------------------------------------------------------------
// Messages
// ---------------------------------------------------------------------------
/// "Border lines cannot be removed".
pub open spec fn msg_border_not_removable() -> Seq<char> {
    "輪郭線は削除できません"@
}

/// "Edge ID {id} does not exist".
pub open spec fn msg_edge_missing(id: nat) -> Seq<char> {
    "辺ID "@ + decimal(id) + " が存在しません"@
}

/// "The kind of a border line cannot be changed".
pub open spec fn msg_border_kind_fixed() -> Seq<char> {
    "輪郭線の種類は変更できません"@
}

/// "A line cannot be changed into a border line".
pub open spec fn msg_to_border() -> Seq<char> {
    "輪郭線へ変更することはできません"@
}

/// "Vertex ID {id} does not exist".
pub open spec fn msg_vertex_missing(id: nat) -> Seq<char> {
    "頂点ID "@ + decimal(id) + " が存在しません"@
}

/// "Give the sheet size as positive values".
pub open spec fn msg_paper_not_positive() -> Seq<char> {
    "紙のサイズは正の値で指定してください"@
}

/// "The sheet size cannot change while fold lines exist".
pub open spec fn msg_paper_locked() -> Seq<char> {
    "折り線がある状態では紙サイズを変更できません"@
}

/// The notice that the grid size `n` was clamped to `c`.
pub open spec fn msg_grid_clamped(n: nat, c: nat) -> Seq<char> {
    "方眼の数は"@ + decimal(MIN_GRID_DIVISIONS as nat) + "〜"@ + decimal(MAX_GRID_DIVISIONS as nat)
        + "の範囲で指定してください("@ + decimal(n) + "は"@ + decimal(c) + "に丸めました)"@
}

// ---------------------------------------------------------------------------
// The sheet
// ---------------------------------------------------------------------------
/// Whether the binary64 value with bit pattern `bits` is greater than zero: its sign bit
/// is clear and it is neither zero nor NaN (the positive values run from the smallest
/// subnormal, bit pattern 1, to infinity, bit pattern 0x7FF0_0000_0000_0000).
pub open spec fn is_positive(bits: u64) -> bool {
    0 < bits && bits <= 0x7FF0_0000_0000_0000u64
}

/// Accepts a sheet whose width and height are both greater than zero.
pub fn check_paper(paper: &Paper) -> (r: Result<(), String>)
    ensures
        r is Ok <==> (is_positive(paper.width_bits) && is_positive(paper.height_bits)),
        r matches Err(e) ==> e@ == msg_paper_not_positive(),
{
    if 0 < paper.width_bits && paper.width_bits <= 0x7FF0_0000_0000_0000u64 && 0
        < paper.height_bits && paper.height_bits <= 0x7FF0_0000_0000_0000u64 {
        Ok(())
    } else {
        Err(String::from_str("紙のサイズは正の値で指定してください"))
    }
}

// ---------------------------------------------------------------------------
// Edges
// ---------------------------------------------------------------------------
/// Whether some edge with identifier `id` is a border edge.
pub open spec fn is_border_id(edges: Seq<Edge>, id: EdgeId) -> bool {
    exists|i: int| 0 <= i < edges.len() && edges[i].id == id && edges[i].kind == EdgeKind::Border
}

/// The identifiers of `ids` that name no border edge, in order.
pub open spec fn non_border_ids(edges: Seq<Edge>, ids: Seq<EdgeId>) -> Seq<EdgeId>
    decreases ids.len(),
{
    if ids.len() == 0 {
        Seq::empty()
    } else {
        let rest = non_border_ids(edges, ids.drop_last());
        if is_border_id(edges, ids.last()) {
            rest
        } else {
            rest.push(ids.last())
        }
    }
}

/// Whether the crease pattern has a border edge with identifier `id`.
pub fn is_border(cp: &CreasePattern, id: u32) -> (r: bool)
    ensures
        r == is_border_id(cp@.edges, id),
{
    let mut i: usize = 0;
    while i < cp.edges.len()
        invariant
            i <= cp.edges.len(),
            forall|k: int|
                0 <= k < i ==> !(cp.edges@[k].id == id && cp.edges@[k].kind == EdgeKind::Border),
        decreases cp.edges.len() - i,
    {
        if cp.edges[i].id == id && cp.edges[i].kind == EdgeKind::Border {
            return true;
        }
        i = i + 1;
    }
    false
}

/// The requested identifiers that may be removed: all but those of border edges.
pub fn removable_edges(cp: &CreasePattern, ids: &Vec<EdgeId>) -> (r: Vec<EdgeId>)
    ensures
        r@ == non_border_ids(cp@.edges, ids@),
{
    let mut r: Vec<EdgeId> = Vec::new();
    let mut i: usize = 0;
    while i < ids.len()
        invariant
            i <= ids.len(),
            r@ =~= non_border_ids(cp@.edges, ids@.subrange(0, i as int)),
        decreases ids.len() - i,
    {
        proof {
            assert(ids@.subrange(0, i + 1).drop_last() =~= ids@.subrange(0, i as int));
            assert(ids@.subrange(0, i + 1).last() == ids@[i as int]);
        }
        if !is_border(cp, ids[i]) {
            r.push(ids[i]);
        }
        i = i + 1;
    }
    proof {
        assert(ids@.subrange(0, i as int) =~= ids@);
    }
    r
}

/// The position of the first edge with identifier `id`, or `-1`.
pub open spec fn edge_index(edges: Seq<Edge>, id: EdgeId) -> int {
    if exists|i: int| 0 <= i < edges.len() && edges[i].id == id {
        choose|i: int|
            0 <= i < edges.len() && edges[i].id == id && forall|k: int|
                0 <= k < i ==> edges[k].id != id
    } else {
        -1
    }
}

/// The state of a change of edge kinds: the edges, the warnings so far and whether each
/// of the two border warnings has been given.
pub struct KindChange {
    pub edges: Seq<Edge>,
    pub warnings: Seq<Seq<char>>,
    pub warned_from_border: bool,
    pub warned_to_border: bool,
}

/// One target of a change of edge kinds.
pub open spec fn kind_step(st: KindChange, id: EdgeId, kind: EdgeKind) -> KindChange {
    let i = edge_index(st.edges, id);
    if i < 0 {
        KindChange { warnings: st.warnings.push(msg_edge_missing(id as nat)), ..st }
    } else if st.edges[i].kind == EdgeKind::Border {
        if st.warned_from_border {
            st
        } else {
            KindChange {
                warnings: st.warnings.push(msg_border_kind_fixed()),
                warned_from_border: true,
                ..st
            }
        }
    } else if kind == EdgeKind::Border {
        if st.warned_to_border {
            st
        } else {
            KindChange {
                warnings: st.warnings.push(msg_to_border()),
                warned_to_border: true,
                ..st
            }
        }
    } else {
        KindChange { edges: st.edges.update(i, Edge { kind: kind, ..st.edges[i] }), ..st }
    }
}

/// All targets of a change of edge kinds, in order.
pub open spec fn kind_changes(st: KindChange, ids: Seq<EdgeId>, kind: EdgeKind) -> KindChange
    decreases ids.len(),
{
    if ids.len() == 0 {
        st
    } else {
        kind_step(kind_changes(st, ids.drop_last(), kind), ids.last(), kind)
    }
}

fn find_edge_index(edges: &Vec<Edge>, id: EdgeId) -> (r: Option<usize>)
    ensures
        r is None ==> edge_index(edges@, id) == -1,
        r matches Some(i) ==> i == edge_index(edges@, id) && i < edges@.len(),
{
    let mut i: usize = 0;
    while i < edges.len()
        invariant
            i <= edges.len(),
            forall|k: int| 0 <= k < i ==> edges@[k].id != id,
        decreases edges.len() - i,
    {
        if edges[i].id == id {
            proof {
                let f = edge_index(edges@, id);
                assert(edges@[i as int].id == id);
                assert(0 <= f < edges@.len() && edges@[f].id == id);
                if f > i {
                    assert(edges@[i as int].id == id);
                }
            }
            return Some(i);
        }
        i = i + 1;
    }
    None
}

fn set_edge_kinds(cp: &mut CreasePattern, ids: &Vec<EdgeId>, kind: EdgeKind, warnings: &mut Vec<
    String,
>)
    ensures
        final(cp)@.vertices == old(cp)@.vertices,
        final(cp)@.next_vertex_id == old(cp)@.next_vertex_id,
        final(cp)@.next_edge_id == old(cp)@.next_edge_id,
        ({
            let st = kind_changes(
                KindChange {
                    edges: old(cp)@.edges,
                    warnings: texts(old(warnings)@),
                    warned_from_border: false,
                    warned_to_border: false,
                },
                ids@,
                kind,
            );
            final(cp)@.edges == st.edges && texts(final(warnings)@) == st.warnings
        }),
{
    let ghost start = KindChange {
        edges: cp@.edges,
        warnings: texts(warnings@),
        warned_from_border: false,
        warned_to_border: false,
    };
    let ghost v0 = cp@.vertices;
    let ghost nv = cp.next_vertex_id;
    let ghost ne = cp.next_edge_id;
    let mut warned_from_border = false;
    let mut warned_to_border = false;
    let mut j: usize = 0;
    while j < ids.len()
        invariant
            j <= ids.len(),
            cp@.vertices == v0,
            cp.next_vertex_id == nv,
            cp.next_edge_id == ne,
            ({
                let st = kind_changes(start, ids@.subrange(0, j as int), kind);
                &&& cp@.edges == st.edges
                &&& texts(warnings@) == st.warnings
                &&& warned_from_border == st.warned_from_border
                &&& warned_to_border == st.warned_to_border
            }),
        decreases ids.len() - j,
    {
        let id = ids[j];
        proof {
            assert(ids@.subrange(0, j + 1).drop_last() =~= ids@.subrange(0, j as int));
            assert(ids@.subrange(0, j + 1).last() == id);
        }
        let ghost prev_warnings = warnings@;
        match find_edge_index(&cp.edges, id) {
            None => {
                warnings.push(message_with_number("辺ID ", id as u64, " が存在しません"));
                proof {
                    assert(texts(warnings@) =~= texts(prev_warnings).push(
                        msg_edge_missing(id as nat),
                    ));
                }
            },
            Some(i) => {
                let e = cp.edges[i];
                if e.kind == EdgeKind::Border {
                    if !warned_from_border {
                        warnings.push(String::from_str("輪郭線の種類は変更できません"));
                        warned_from_border = true;
                        proof {
                            assert(texts(warnings@) =~= texts(prev_warnings).push(
                                msg_border_kind_fixed(),
                            ));
                        }
                    }
                } else if kind == EdgeKind::Border {
                    if !warned_to_border {
                        warnings.push(String::from_str("輪郭線へ変更することはできません"));
                        warned_to_border = true;
                        proof {
                            assert(texts(warnings@) =~= texts(prev_warnings).push(
                                msg_to_border(),
                            ));
                        }
                    }
                } else {
                    cp.edges.set(i, Edge { id: e.id, v0: e.v0, v1: e.v1, kind });
                }
            },
        }
        j = j + 1;
    }
    proof {
        assert(ids@.subrange(0, j as int) =~= ids@);
    }
}

/// Whether the crease pattern has a vertex with identifier `id`.
pub fn has_vertex(cp: &CreasePattern, id: VertexId) -> (r: bool)
    ensures
        r == (exists|i: int| 0 <= i < cp@.vertices.len() && cp@.vertices[i].id == id),
{
    let mut i: usize = 0;
    while i < cp.vertices.len()
        invariant
            i <= cp.vertices.len(),
            forall|k: int| 0 <= k < i ==> cp.vertices@[k].id != id,
        decreases cp.vertices.len() - i,
    {
        if cp.vertices[i].id == id {
            proof {
                assert(cp@.vertices[i as int].id == id);
            }
            return true;
        }
        i = i + 1;
    }
    false
}

/// Whether some edge of the crease pattern is not a border edge.
pub fn has_fold_lines(cp: &CreasePattern) -> (r: bool)
    ensures
        r == (exists|i: int| 0 <= i < cp@.edges.len() && cp@.edges[i].kind != EdgeKind::Border),
{
    let mut i: usize = 0;
    while i < cp.edges.len()
        invariant
            i <= cp.edges.len(),
            forall|k: int| 0 <= k < i ==> cp.edges@[k].kind == EdgeKind::Border,
        decreases cp.edges.len() - i,
    {
        if cp.edges[i].kind != EdgeKind::Border {
            return true;
        }
        i = i + 1;
    }
    false
}

// ---------------------------------------------------------------------------
// Display
// ---------------------------------------------------------------------------
/// The grid size brought into the accepted range.
pub open spec fn clamp_grid(n: u32) -> u32 {
    if n < MIN_GRID_DIVISIONS {
        MIN_GRID_DIVISIONS
    } else if n > MAX_GRID_DIVISIONS {
        MAX_GRID_DIVISIONS
    } else {
        n
    }
}

/// The display settings with the grid size clamped, and the notice given when it had
/// to be.
pub fn clamp_display(display: DisplaySettings) -> (r: (DisplaySettings, Option<String>))
    ensures
        r.0 == (DisplaySettings { grid_divisions: clamp_grid(display.grid_divisions), ..display }),
        (MIN_GRID_DIVISIONS <= display.grid_divisions <= MAX_GRID_DIVISIONS) ==> r.1 is None,
        !(MIN_GRID_DIVISIONS <= display.grid_divisions <= MAX_GRID_DIVISIONS) ==> (r.1 matches Some(
            w,
        ) && w@ == msg_grid_clamped(
            display.grid_divisions as nat,
            clamp_grid(display.grid_divisions) as nat,
        )),
{
    let n = display.grid_divisions;
    if MIN_GRID_DIVISIONS <= n && n <= MAX_GRID_DIVISIONS {
        return (display, None);
    }
    let c = if n < MIN_GRID_DIVISIONS {
        MIN_GRID_DIVISIONS
    } else {
        MAX_GRID_DIVISIONS
    };
    let mut w = String::from_str("方眼の数は");
    push_decimal(&mut w, MIN_GRID_DIVISIONS as u64);
    w.append("〜");
    push_decimal(&mut w, MAX_GRID_DIVISIONS as u64);
    w.append("の範囲で指定してください(");
    push_decimal(&mut w, n as u64);
    w.append("は");
    push_decimal(&mut w, c as u64);
    w.append("に丸めました)");
    let mut clamped = display;
    clamped.grid_divisions = c;
    (clamped, Some(w))
}

// ---------------------------------------------------------------------------
// One operation
// ---------------------------------------------------------------------------
/// The document `d` with its crease pattern replaced.
pub open spec fn with_cp(d: DocumentModel, cp: crate::model::CreasePatternModel) -> DocumentModel {
    DocumentModel { cp: cp, ..d }
}

/// What one editing operation does to a candidate document `d` and the warnings `w`
/// gathered so far, when it ends with `r` and leaves `d2` and `w2`; the geometric changes
/// are those `kernel` makes.
pub open spec fn edit_effect<K: CreaseKernel>(
    kernel: &K,
    op: EditOp,
    d: DocumentModel,
    w: Seq<Seq<char>>,
    r: Result<(), String>,
    d2: DocumentModel,
    w2: Seq<Seq<char>>,
) -> bool {
    &&& (r is Err ==> d2 == d && w2 == w)
    &&& (match op {
            EditOp::AddSegment { a, b, kind } => {
                &&& r is Ok
                &&& d2 == with_cp(d, kernel.with_segment(d.cp, a, b, kind))
                &&& w2 == w
            },
            EditOp::RemoveEdges { ids } => {
                &&& r is Ok
                &&& d2 == with_cp(d, kernel.without_edges(d.cp, non_border_ids(d.cp.edges, ids@)))
                &&& w2 == if non_border_ids(d.cp.edges, ids@).len()
                    == ids@.len() {
                    w
                } else {
                    w.push(msg_border_not_removable())
                }
            },
            EditOp::SetEdgeKind { ids, kind } => {
                let st = kind_changes(
                    KindChange {
                        edges: d.cp.edges,
                        warnings: w,
                        warned_from_border: false,
                        warned_to_border: false,
                    },
                    ids@,
                    kind,
                );
                &&& r is Ok
                &&& d2 == with_cp(
                    d,
                    crate::model::CreasePatternModel { edges: st.edges, ..d.cp },
                )
                &&& w2 == st.warnings
            },
            EditOp::MoveVertex { id, to } => {
                &&& r is Ok
                &&& if exists|i: int|
                    0 <= i < d.cp.vertices.len() && d.cp.vertices[i].id == id {
                    &&& d2 == with_cp(d, kernel.with_vertex_moved(d.cp, id, to))
                    &&& w2 == w
                } else {
                    &&& d2 == d
                    &&& w2 == w.push(
                        msg_vertex_missing(id as nat),
                    )
                }
            },
            EditOp::SetPaper { paper } => {
                &&& !(is_positive(paper.width_bits) && is_positive(paper.height_bits)) ==> (r matches Err(
                    e,
                ) && e@ == msg_paper_not_positive())
                &&& (is_positive(paper.width_bits) && is_positive(paper.height_bits) && exists|
                    i: int,
                | 0 <= i < d.cp.edges.len() && d.cp.edges[i].kind
                    != EdgeKind::Border) ==> (r matches Err(e) && e@ == msg_paper_locked())
                &&& r is Ok <==> (is_positive(paper.width_bits) && is_positive(paper.height_bits)
                    && forall|i: int|
                    0 <= i < d.cp.edges.len() ==> d.cp.edges[i].kind
                        == EdgeKind::Border)
                &&& r is Ok ==> d2 == DocumentModel {
                    paper: kernel.doc_for(paper).paper,
                    cp: kernel.doc_for(paper).cp,
                    ..d
                } && w2 == w
            },
            EditOp::ReplaceCreasePattern { cp } => {
                &&& r is Ok
                &&& d2 == DocumentModel {
                    cp: cp@,
                    sequence: Seq::empty(),
                    ..d
                }
                &&& w2 == w
            },
            EditOp::SetDisplay { display } => {
                &&& r is Ok
                &&& d2 == DocumentModel {
                    display: DisplaySettings {
                        grid_divisions: clamp_grid(display.grid_divisions),
                        ..display
                    },
                    ..d
                }
                &&& w2 == if MIN_GRID_DIVISIONS <= display.grid_divisions
                    <= MAX_GRID_DIVISIONS {
                    w
                } else {
                    w.push(
                        msg_grid_clamped(
                            display.grid_divisions as nat,
                            clamp_grid(display.grid_divisions) as nat,
                        ),
                    )
                }
            },
        })
}

/// Applies one editing operation to a candidate document (nothing is recorded in the
/// history here). Geometric changes are made by the kernel: border edges are never
/// handed to it for removal, and a new sheet takes the kernel's new work for it.
pub fn edit_document<K: CreaseKernel>(
    kernel: &K,
    doc: &mut Document,
    op: EditOp,
    warnings: &mut Vec<String>,
) -> (r: Result<(), String>)
    ensures
        edit_effect(kernel, op, old(doc)@, texts(old(warnings)@), r, final(doc)@, texts(final(warnings)@)),
        op matches EditOp::SetEdgeKind { ids, kind } ==> kind != EdgeKind::Border ==> forall|i: int|
            0 <= i < old(doc)@.cp.edges.len() && ids@.contains(old(doc)@.cp.edges[i].id)
                && old(doc)@.cp.edges[i].kind != EdgeKind::Border && (forall|k: int|
                0 <= k < i ==> old(doc)@.cp.edges[k].id != old(doc)@.cp.edges[i].id)
                ==> (#[trigger] final(doc)@.cp.edges[i]).kind == kind,
{
    let ghost before = warnings@;
    match op {
        EditOp::AddSegment { a, b, kind } => {
            kernel.insert_segment(&mut doc.cp, a, b, kind);
            Ok(())
        },
        EditOp::RemoveEdges { ids } => {
            let removable = removable_edges(&doc.cp, &ids);
            if removable.len() != ids.len() {
                warnings.push(String::from_str("輪郭線は削除できません"));
                proof {
                    assert(texts(warnings@) =~= texts(before).push(msg_border_not_removable()));
                }
            }
            kernel.remove_edges(&mut doc.cp, &removable);
            Ok(())
        },
        EditOp::SetEdgeKind { ids, kind } => {
            proof {
                if kind != EdgeKind::Border {
                    crate::laws::law_set_edge_kind_sets_the_targets(
                        KindChange {
                            edges: doc@.cp.edges,
                            warnings: texts(warnings@),
                            warned_from_border: false,
                            warned_to_border: false,
                        },
                        ids@,
                        kind,
                    );
                }
            }
            set_edge_kinds(&mut doc.cp, &ids, kind, warnings);
            Ok(())
        },
        EditOp::MoveVertex { id, to } => {
            if has_vertex(&doc.cp, id) {
                kernel.move_vertex(&mut doc.cp, id, to);
            } else {
                warnings.push(message_with_number("頂点ID ", id as u64, " が存在しません"));
                proof {
                    assert(texts(warnings@) =~= texts(before).push(msg_vertex_missing(id as nat)));
                }
            }
            Ok(())
        },
        EditOp::SetPaper { paper } => {
            check_paper(&paper)?;
            if has_fold_lines(&doc.cp) {
                return Err(String::from_str("折り線がある状態では紙サイズを変更できません"));
            }
            let fresh = kernel.new_document(paper);
            doc.paper = fresh.paper;
            doc.cp = fresh.cp;
            Ok(())
        },
        EditOp::ReplaceCreasePattern { cp } => {
            doc.cp = cp;
            doc.sequence = Vec::new();
            proof {
                assert(crate::model::steps_model(doc.sequence@) =~= Seq::empty());
            }
            Ok(())
        },
        EditOp::SetDisplay { display } => {
            let (clamped, notice) = clamp_display(display);
            match notice {
                Some(w) => {
                    warnings.push(w);
                    proof {
                        assert(texts(warnings@) =~= texts(before).push(
                            msg_grid_clamped(
                                display.grid_divisions as nat,
                                clamp_grid(display.grid_divisions) as nat,
                            ),
                        ));
                    }
                },
                None => {},
            }
            doc.display = clamped;
            Ok(())
        },
    }
}

} // verus!

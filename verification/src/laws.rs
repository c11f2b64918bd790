//! Properties that span several operations of the library.
use vstd::prelude::*;

use crate::fold_target::{
    counts_safe, section_limited, section_ready, target_verdict, FoldTargetStatus, PleatSection,
};
use crate::model::{CreaseLine, DocumentModel, FaceModel, StepCreasesModel, StepId};
use crate::steps::{
    edge_ids, edge_line, fresh_step_id, has_step, lemma_seq_max, lemma_without_step, moved,
    new_crease_lines, recorded, seq_max, without_id,
};
use crate::model::{CreasePatternModel, Edge, EdgeId, EdgeKind, FoldStepModel, Vertex, VertexId};
use crate::steps::{first_edge, last_vertex};
use crate::edits::{kind_changes, KindChange};
use crate::kernel::CreaseKernel;
use crate::store::{
    seq_effect, SeqOp, DocumentView,
    committed, faces_current, redone, snapshot_of, undone, well_formed, SnapshotModel,
    StoreModel, MAX_UNDO,
};

verus! {

/// Undo right after a change takes the work back to the document and crease history it
/// had before the change, and keeps the change for redo.
pub proof fn law_undo_takes_back_a_change(
    s: StoreModel,
    doc: DocumentModel,
    creases: Seq<StepCreasesModel>,
    faces: Seq<FaceModel>,
    faces_before: Seq<FaceModel>,
)
    requires
        !(doc == s.doc && creases == s.step_creases),
    ensures
        committed(s, doc, creases, faces).undo.len() > 0,
        undone(committed(s, doc, creases, faces), faces_before).doc == s.doc,
        undone(committed(s, doc, creases, faces), faces_before).step_creases == s.step_creases,
        undone(committed(s, doc, creases, faces), faces_before).redo == seq![
            SnapshotModel { doc: doc, step_creases: creases },
        ],
{
    let t = committed(s, doc, creases, faces);
    assert(t.redo.push(snapshot_of(t)) =~= seq![SnapshotModel { doc: doc, step_creases: creases }]);
}

/// Redo right after undo gives back exactly the store before the undo, but for the
/// faces, which are derived again, and the unsaved flag, which is set.
pub proof fn law_redo_reverses_undo(s: StoreModel, f1: Seq<FaceModel>, f2: Seq<FaceModel>)
    requires
        s.undo.len() > 0,
    ensures
        undone(s, f1).redo.len() > 0,
        redone(undone(s, f1), f2) == (StoreModel { faces: f2, dirty: true, ..s }),
{
    let u = undone(s, f1);
    assert(u.undo.push(snapshot_of(u)) =~= s.undo);
    assert(u.redo.drop_last() =~= s.redo);
}

/// With faces derived by the kernel, redo right after undo gives back exactly the store
/// before the undo, faces included, but for the unsaved flag, which is set.
pub proof fn law_undo_then_redo_gives_back_the_faces<K: CreaseKernel>(kernel: &K, s: StoreModel)
    requires
        s.undo.len() > 0,
        faces_current(kernel, s),
    ensures
        ({
            let u = undone(s, kernel.faces_of(s.undo.last().doc.cp));
            &&& u.redo.len() > 0
            &&& faces_current(kernel, u)
            &&& redone(u, kernel.faces_of(u.redo.last().doc.cp)) == (StoreModel { dirty: true, ..s })
        }),
{
    let u = undone(s, kernel.faces_of(s.undo.last().doc.cp));
    law_redo_reverses_undo(s, kernel.faces_of(s.undo.last().doc.cp), kernel.faces_of(u.redo.last().doc.cp));
    assert(u.redo.last() == snapshot_of(s));
}

/// The cached faces are always those of the current crease pattern: a commit, an undo
/// and a redo whose faces the kernel derives from the state they make current keep it
/// so, and a commit that leaves the crease pattern as it is keeps the faces.
pub proof fn law_faces_follow_the_pattern<K: CreaseKernel>(
    kernel: &K,
    s: StoreModel,
    doc: DocumentModel,
    creases: Seq<StepCreasesModel>,
)
    requires
        faces_current(kernel, s),
    ensures
        faces_current(kernel, committed(s, doc, creases, kernel.faces_of(doc.cp))),
        doc.cp == s.doc.cp ==> committed(s, doc, creases, kernel.faces_of(doc.cp)).faces == s.faces,
        s.undo.len() > 0 ==> faces_current(kernel, undone(s, kernel.faces_of(s.undo.last().doc.cp))),
        s.redo.len() > 0 ==> faces_current(kernel, redone(s, kernel.faces_of(s.redo.last().doc.cp))),
{
}

/// Undo right after redo gives back exactly the store before the redo, but for the
/// faces and the unsaved flag.
pub proof fn law_undo_reverses_redo(s: StoreModel, f1: Seq<FaceModel>, f2: Seq<FaceModel>)
    requires
        s.redo.len() > 0,
    ensures
        redone(s, f1).undo.len() > 0,
        undone(redone(s, f1), f2) == (StoreModel { faces: f2, dirty: true, ..s }),
{
    let r = redone(s, f1);
    assert(r.redo.push(snapshot_of(r)) =~= s.redo);
    assert(r.undo.drop_last() =~= s.undo);
}

/// Committing a candidate equal to the current work records nothing: history, work,
/// faces and unsaved flag stay as they are.
pub proof fn law_unchanged_commit_records_nothing(s: StoreModel, faces: Seq<FaceModel>)
    ensures
        committed(s, s.doc, s.step_creases, faces).undo == s.undo,
        committed(s, s.doc, s.step_creases, faces).redo == s.redo,
        committed(s, s.doc, s.step_creases, faces).doc == s.doc,
        committed(s, s.doc, s.step_creases, faces).faces == s.faces,
        committed(s, s.doc, s.step_creases, faces).dirty == s.dirty,
{
}

/// A change drops everything that could be redone and marks the work unsaved; the
/// state before it is the last one undo goes back to.
pub proof fn law_change_clears_redo(
    s: StoreModel,
    doc: DocumentModel,
    creases: Seq<StepCreasesModel>,
    faces: Seq<FaceModel>,
)
    requires
        !(doc == s.doc && creases == s.step_creases),
    ensures
        committed(s, doc, creases, faces).redo.len() == 0,
        committed(s, doc, creases, faces).dirty,
        committed(s, doc, creases, faces).undo.last() == snapshot_of(s),
{
}

/// The undo history holds at most [`MAX_UNDO`] states: a change on a full history
/// forgets the oldest state and keeps the others in order.
pub proof fn law_history_limit(
    s: StoreModel,
    doc: DocumentModel,
    creases: Seq<StepCreasesModel>,
    faces: Seq<FaceModel>,
)
    requires
        well_formed(s),
        !(doc == s.doc && creases == s.step_creases),
    ensures
        well_formed(committed(s, doc, creases, faces)),
        s.undo.len() < MAX_UNDO ==> committed(s, doc, creases, faces).undo == s.undo.push(
            snapshot_of(s),
        ),
        s.undo.len() == MAX_UNDO ==> committed(s, doc, creases, faces).undo.len() == MAX_UNDO
            && committed(s, doc, creases, faces).undo.subrange(0, MAX_UNDO - 1) == s.undo.subrange(
            1,
            MAX_UNDO as int,
        ),
{
    if s.undo.len() == MAX_UNDO {
        let u = committed(s, doc, creases, faces).undo;
        assert(u.subrange(0, MAX_UNDO - 1) =~= s.undo.subrange(1, MAX_UNDO as int));
    }
}

/// Undo and redo keep the history within its limit.
pub proof fn law_undo_redo_keep_the_limit(s: StoreModel, faces: Seq<FaceModel>)
    requires
        well_formed(s),
    ensures
        s.undo.len() > 0 ==> well_formed(undone(s, faces)),
        s.redo.len() > 0 ==> well_formed(redone(s, faces)),
{
}

/// Moving a step and then moving it back restores the sequence.
pub proof fn law_move_back_restores<T>(s: Seq<T>, from: int, to: int)
    requires
        0 <= from < s.len(),
        0 <= to < s.len(),
    ensures
        moved(moved(s, from, to), to, from) == s,
{
    let m = moved(s, from, to);
    assert(m[to] == s[from]);
    assert(m.remove(to) =~= s.remove(from));
    assert(moved(m, to, from) =~= s);
}

/// A move keeps every step: the moved step lands at its destination and the others keep
/// their relative order.
pub proof fn law_move_keeps_the_steps<T>(s: Seq<T>, from: int, to: int)
    requires
        0 <= from < s.len(),
        0 <= to < s.len(),
    ensures
        moved(s, from, to).len() == s.len(),
        moved(s, from, to)[to] == s[from],
        moved(s, from, to).remove(to) == s.remove(from),
{
    assert(moved(s, from, to).remove(to) =~= s.remove(from));
}

/// A new step never gets an identifier already in use by a step or a crease record,
/// unless the largest one in use is the largest identifier there is.
pub proof fn law_fresh_step_id_unused(ids: Seq<StepId>)
    requires
        ids.len() == 0 || seq_max(ids) < u32::MAX,
    ensures
        !ids.contains(fresh_step_id(ids)),
{
    lemma_seq_max(ids);
}

/// Recording the lines of a step leaves exactly one record of that step, the last one,
/// and keeps every record of the other steps.
pub proof fn law_recorded_replaces(list: Seq<StepCreasesModel>, step: StepId, lines: Seq<CreaseLine>)
    ensures
        recorded(list, step, lines).last() == (StepCreasesModel { step, lines }),
        forall|i: int|
            0 <= i < recorded(list, step, lines).len() - 1 ==> (#[trigger] recorded(
                list,
                step,
                lines,
            )[i]).step != step,
        forall|c: StepCreasesModel|
            c.step != step ==> (#[trigger] recorded(list, step, lines).contains(c) <==> list.contains(c)),
{
    lemma_without_step(list, step);
    let w = crate::steps::without_step(list, step);
    let r = recorded(list, step, lines);
    assert forall|i: int| 0 <= i < r.len() - 1 implies (#[trigger] r[i]).step != step by {
        assert(r[i] == w[i]);
        assert(w.contains(w[i]));
    }
    assert forall|c: StepCreasesModel| c.step != step implies (#[trigger] r.contains(c)
        <==> list.contains(c)) by {
        crate::steps::lemma_push_contains(w, StepCreasesModel { step, lines }, c);
    }
}

/// A fold line that offers pleats offers only counts that can all be folded: the
/// count is at least one, each count up to it has target faces, and every section of
/// the line folds that many.
pub proof fn law_offered_counts_are_foldable(
    scalar_count: Option<usize>,
    sections: Seq<PleatSection>,
    safe: Seq<bool>,
)
    requires
        target_verdict(scalar_count, sections, safe).status == FoldTargetStatus::Ready
            || target_verdict(scalar_count, sections, safe).status == FoldTargetStatus::Limited,
    ensures
        scalar_count matches Some(n) && n >= 1 && target_verdict(
            scalar_count,
            sections,
            safe,
        ).available_count == Some(n) && counts_safe(safe, n as nat) && sections.len() > 0
            && forall|i: int|
            0 <= i < sections.len() ==> section_ready(#[trigger] sections[i], n)
                || section_limited(sections[i], n),
{
}

/// Removing the steps with identifier `id` keeps every other step, in order, and only
/// them: the result is the sequence filtered on `id`, every step with another identifier
/// is still there, no step with identifier `id` is left, and exactly as many steps go as
/// carried `id`.
pub proof fn law_remove_step_keeps_the_other_steps(s: Seq<FoldStepModel>, id: StepId)
    ensures
        ({
            let other = |x: FoldStepModel| x.id != id;
            let same = |x: FoldStepModel| x.id == id;
            let r = without_id(s, id);
            &&& r == s.filter(other)
            &&& r.len() + s.filter(same).len() == s.len()
            &&& forall|i: int| 0 <= i < s.len() && s[i].id != id ==> #[trigger] r.contains(s[i])
            &&& forall|j: int| 0 <= j < r.len() ==> (#[trigger] r[j]).id != id
            &&& has_step(s, id) ==> r.len() < s.len()
        }),
    decreases s.len(),
{
    broadcast use vstd::seq_lib::group_filter_ensures;
    reveal(Seq::filter);
    let other = |x: FoldStepModel| x.id != id;
    let same = |x: FoldStepModel| x.id == id;
    if s.len() > 0 {
        law_remove_step_keeps_the_other_steps(s.drop_last(), id);
        assert(s.filter(other) == if other(s.last()) {
            s.drop_last().filter(other).push(s.last())
        } else {
            s.drop_last().filter(other)
        });
        assert(s.filter(same) == if same(s.last()) {
            s.drop_last().filter(same).push(s.last())
        } else {
            s.drop_last().filter(same)
        });
    }
    let r = without_id(s, id);
    assert forall|i: int| 0 <= i < s.len() && s[i].id != id implies #[trigger] r.contains(s[i]) by {
        assert(other(s[i]));
        s.lemma_filter_contains(other, i);
    }
    assert forall|j: int| 0 <= j < r.len() implies (#[trigger] r[j]).id != id by {
        s.lemma_filter_pred(other, j);
    }
    if has_step(s, id) {
        let k = choose|k: int| 0 <= k < s.len() && s[k].id == id;
        assert(same(s[k]));
        s.lemma_filter_contains(same, k);
    }
}

/// Removing a step from the store's sequence (when a step has that identifier) succeeds
/// and leaves exactly the steps with another identifier, each still there and none with
/// the removed identifier.
pub proof fn law_remove_step_in_the_store(
    s: StoreModel,
    id: StepId,
    r: Result<DocumentView, String>,
    s2: StoreModel,
)
    requires
        seq_effect(SeqOp::RemoveStep { id }, s, r, s2),
        has_step(s.doc.sequence, id),
    ensures
        r is Ok,
        ({
            let before = s.doc.sequence;
            let after = s2.doc.sequence;
            &&& forall|i: int| 0 <= i < before.len() && before[i].id != id ==> #[trigger] after.contains(before[i])
            &&& forall|j: int| 0 <= j < after.len() ==> (#[trigger] after[j]).id != id
            &&& after.len() + before.filter(|x: FoldStepModel| x.id == id).len() == before.len()
        }),
{
    law_remove_step_keeps_the_other_steps(s.doc.sequence, id);
    let d = crate::model::with_sequence(s.doc, without_id(s.doc.sequence, id));
    assert(d.sequence.len() < s.doc.sequence.len());
    assert(d != s.doc);
}

/// A verdict that offers pleats offers only counts that can be folded: with status
/// `Ready` or `Limited` and available count `n`, every count `c` from one to `n` has
/// target faces (`safe[c - 1]`).
pub proof fn law_offered_counts_have_target_faces(
    scalar_count: Option<usize>,
    sections: Seq<PleatSection>,
    safe: Seq<bool>,
)
    ensures
        ({
            let v = target_verdict(scalar_count, sections, safe);
            (v.status == FoldTargetStatus::Ready || v.status == FoldTargetStatus::Limited) ==> (
            v.available_count matches Some(n) && n <= safe.len() && forall|c: int|
                1 <= c <= n ==> #[trigger] safe[c - 1])
        }),
{
    let v = target_verdict(scalar_count, sections, safe);
    if v.status == FoldTargetStatus::Ready || v.status == FoldTargetStatus::Limited {
        let n = scalar_count->Some_0;
        assert forall|c: int| 1 <= c <= n implies #[trigger] safe[c - 1] by {
            assert(safe[c - 1]);
        }
    }
}

/// Whether edge `i` is the first edge of `es` with its identifier.
spec fn first_with_id(es: Seq<Edge>, i: int) -> bool {
    forall|k: int| 0 <= k < i ==> es[k].id != es[i].id
}

/// An identifier that some edge carries has a first edge carrying it.
proof fn lemma_first_edge_exists(es: Seq<Edge>, id: EdgeId, i0: int)
    requires
        0 <= i0 < es.len(),
        es[i0].id == id,
    ensures
        exists|i: int| 0 <= i < es.len() && es[i].id == id && forall|k: int| 0 <= k < i ==> es[k].id != id,
    decreases i0,
{
    if exists|k: int| 0 <= k < i0 && es[k].id == id {
        let k = choose|k: int| 0 <= k < i0 && es[k].id == id;
        lemma_first_edge_exists(es, id, k);
    } else {
        assert(forall|k: int| 0 <= k < i0 ==> es[k].id != id);
    }
}

/// One target of a change of edge kinds changes the kind of the first edge with that
/// identifier, unless it is a border edge, and nothing else.
proof fn lemma_kind_step(st: KindChange, id: EdgeId, kind: EdgeKind)
    requires
        kind != EdgeKind::Border,
    ensures
        ({
            let es = st.edges;
            let r = crate::edits::kind_step(st, id, kind).edges;
            &&& r.len() == es.len()
            &&& forall|i: int|
                0 <= i < es.len() ==> (#[trigger] r[i]).id == es[i].id && r[i].v0 == es[i].v0
                    && r[i].v1 == es[i].v1 && r[i].kind == if es[i].id == id && first_with_id(es, i)
                    && es[i].kind != EdgeKind::Border {
                    kind
                } else {
                    es[i].kind
                }
        }),
{
    let es = st.edges;
    let ix = crate::edits::edge_index(es, id);
    if exists|i: int| 0 <= i < es.len() && es[i].id == id {
        let w = choose|i: int| 0 <= i < es.len() && es[i].id == id;
        lemma_first_edge_exists(es, id, w);
        assert(0 <= ix < es.len() && es[ix].id == id && forall|k: int| 0 <= k < ix ==> es[k].id != id);
        assert forall|i: int| 0 <= i < es.len() && es[i].id == id && first_with_id(es, i) implies i == ix by {
            if i < ix {
                assert(es[i].id == id);
            } else if i > ix {
                assert(es[ix].id == es[i].id);
            }
        }
    } else {
        assert(ix == -1);
    }
}

/// Setting the kind of edges to a kind other than the border's changes, for each
/// identifier asked for, the kind of the first edge with that identifier unless it is a
/// border edge, and nothing else: the edges keep their order, identifiers and end points,
/// and an edge not targeted keeps its kind.
#[verifier::rlimit(30)]
pub proof fn law_set_edge_kind_sets_the_targets(st: KindChange, ids: Seq<EdgeId>, kind: EdgeKind)
    requires
        kind != EdgeKind::Border,
    ensures
        ({
            let es = st.edges;
            let r = kind_changes(st, ids, kind).edges;
            &&& r.len() == es.len()
            &&& forall|i: int|
                0 <= i < es.len() ==> (#[trigger] r[i]).id == es[i].id && r[i].v0 == es[i].v0
                    && r[i].v1 == es[i].v1
            &&& forall|i: int|
                0 <= i < es.len() && ids.contains(es[i].id) && es[i].kind != EdgeKind::Border
                    && (forall|k: int| 0 <= k < i ==> es[k].id != es[i].id) ==> (#[trigger] r[i]).kind
                    == kind
            &&& forall|i: int|
                0 <= i < es.len() ==> (#[trigger] r[i]).kind == if ids.contains(es[i].id) && (forall|
                    k: int,
                | 0 <= k < i ==> es[k].id != es[i].id) && es[i].kind != EdgeKind::Border {
                    kind
                } else {
                    es[i].kind
                }
        }),
    decreases ids.len(),
{
    let es = st.edges;
    if ids.len() > 0 {
        let prev = kind_changes(st, ids.drop_last(), kind);
        law_set_edge_kind_sets_the_targets(st, ids.drop_last(), kind);
        lemma_kind_step(prev, ids.last(), kind);
        let pe = prev.edges;
        let r = kind_changes(st, ids, kind).edges;
        assert forall|i: int| 0 <= i < es.len() implies (#[trigger] r[i]).kind == if ids.contains(es[i].id)
            && first_with_id(es, i) && es[i].kind != EdgeKind::Border {
            kind
        } else {
            es[i].kind
        } by {
            assert(first_with_id(pe, i) == first_with_id(es, i)) by {
                assert forall|k: int| 0 <= k < i implies pe[k].id == es[k].id by {
                    assert(pe[k].id == es[k].id);
                }
            }
            assert(ids.contains(es[i].id) == (ids.drop_last().contains(es[i].id) || ids.last() == es[i].id)) by {
                if ids.contains(es[i].id) {
                    let j = choose|j: int| 0 <= j < ids.len() && ids[j] == es[i].id;
                    if j < ids.len() - 1 {
                        assert(ids.drop_last()[j] == es[i].id);
                    }
                }
                if ids.drop_last().contains(es[i].id) {
                    let j = choose|j: int| 0 <= j < ids.drop_last().len() && ids.drop_last()[j] == es[i].id;
                    assert(ids[j] == es[i].id);
                }
                if ids.last() == es[i].id {
                    assert(ids[ids.len() - 1] == es[i].id);
                }
            }
        }
        assert forall|i: int|
            0 <= i < es.len() && ids.contains(es[i].id) && es[i].kind != EdgeKind::Border && (forall|
                k: int,
            | 0 <= k < i ==> es[k].id != es[i].id) implies (#[trigger] r[i]).kind == kind by {
            assert(first_with_id(es, i));
        }
    }
}

/// A fold records one segment for every added edge that did not exist before the fold
/// and whose edge and end points exist after it, in the order the edges were added, and
/// nothing else.
pub proof fn law_fold_records_every_added_line(
    before: CreasePatternModel,
    after: CreasePatternModel,
    added: Seq<EdgeId>,
)
    ensures
        ({
            let recordable = |id: EdgeId| !edge_ids(before.edges).contains(id) && edge_line(after, id) is Some;
            let kept = added.filter(recordable);
            let r = new_crease_lines(before, after, added);
            &&& r.len() == kept.len()
            &&& forall|j: int| 0 <= j < r.len() ==> #[trigger] r[j] == edge_line(after, kept[j])->Some_0
            &&& forall|i: int| 0 <= i < added.len() && recordable(added[i]) ==> #[trigger] r.contains(
                edge_line(after, added[i])->Some_0,
            )
        }),
    decreases added.len(),
{
    broadcast use vstd::seq_lib::group_filter_ensures;
    reveal(Seq::filter);
    let recordable = |id: EdgeId| !edge_ids(before.edges).contains(id) && edge_line(after, id) is Some;
    let kept = added.filter(recordable);
    let r = new_crease_lines(before, after, added);
    if added.len() > 0 {
        law_fold_records_every_added_line(before, after, added.drop_last());
        assert(kept == if recordable(added.last()) {
            added.drop_last().filter(recordable).push(added.last())
        } else {
            added.drop_last().filter(recordable)
        });
    }
    assert forall|i: int| 0 <= i < added.len() && recordable(added[i]) implies #[trigger] r.contains(
        edge_line(after, added[i])->Some_0,
    ) by {
        added.lemma_filter_contains(recordable, i);
        let j = choose|j: int| 0 <= j < kept.len() && kept[j] == added[i];
        assert(r[j] == edge_line(after, kept[j])->Some_0);
    }
}

/// The first edge with identifier `id`, when there is one, is the edge at the first index
/// carrying it.
proof fn lemma_first_edge(es: Seq<Edge>, id: EdgeId)
    ensures
        first_edge(es, id) is Some <==> exists|k: int| 0 <= k < es.len() && es[k].id == id,
        first_edge(es, id) matches Some(e) ==> exists|k: int|
            0 <= k < es.len() && es[k] == e && e.id == id && forall|j: int| 0 <= j < k ==> es[j].id != id,
    decreases es.len(),
{
    if es.len() > 0 {
        lemma_first_edge(es.drop_first(), id);
        if es[0].id == id {
            assert(es[0].id == id);
        } else {
            if exists|k: int| 0 <= k < es.len() && es[k].id == id {
                let k = choose|k: int| 0 <= k < es.len() && es[k].id == id;
                assert(es.drop_first()[k - 1].id == id);
            }
            if first_edge(es, id) is Some {
                let e = first_edge(es, id)->Some_0;
                let k = choose|k: int|
                    0 <= k < es.drop_first().len() && es.drop_first()[k] == e && e.id == id && forall|
                        j: int,
                    | 0 <= j < k ==> es.drop_first()[j].id != id;
                assert(es[k + 1] == e);
                assert forall|j: int| 0 <= j < k + 1 implies es[j].id != id by {
                    if j > 0 {
                        assert(es.drop_first()[j - 1] == es[j]);
                    }
                }
            }
        }
    }
}

/// The last vertex with identifier `id`, when there is one, is a vertex of the list
/// carrying it.
proof fn lemma_last_vertex(vs: Seq<Vertex>, id: VertexId)
    ensures
        last_vertex(vs, id) is Some <==> exists|a: int| 0 <= a < vs.len() && vs[a].id == id,
        last_vertex(vs, id) matches Some(v) ==> exists|a: int|
            0 <= a < vs.len() && vs[a] == v && v.id == id && forall|j: int| a < j < vs.len() ==> vs[j].id != id,
    decreases vs.len(),
{
    if vs.len() > 0 {
        lemma_last_vertex(vs.drop_last(), id);
        if vs.last().id == id {
            assert(vs[vs.len() - 1].id == id);
        } else {
            if exists|a: int| 0 <= a < vs.len() && vs[a].id == id {
                let a = choose|a: int| 0 <= a < vs.len() && vs[a].id == id;
                assert(vs.drop_last()[a].id == id);
            }
            if last_vertex(vs, id) is Some {
                let v = last_vertex(vs, id)->Some_0;
                let a = choose|a: int|
                    0 <= a < vs.drop_last().len() && vs.drop_last()[a] == v && v.id == id && forall|
                        j: int,
                    | a < j < vs.drop_last().len() ==> vs.drop_last()[j].id != id;
                assert(vs[a] == v);
                assert forall|j: int| a < j < vs.len() implies vs[j].id != id by {
                    if j < vs.len() - 1 {
                        assert(vs.drop_last()[j] == vs[j]);
                    }
                }
            }
        }
    }
}

/// Edge `k` is the first edge of `es` with identifier `id`.
pub open spec fn first_edge_at(es: Seq<Edge>, id: EdgeId, k: int) -> bool {
    0 <= k < es.len() && es[k].id == id && forall|j: int| 0 <= j < k ==> es[j].id != id
}

/// Vertex `a` is the last vertex of `vs` with identifier `id`.
pub open spec fn last_vertex_at(vs: Seq<Vertex>, id: VertexId, a: int) -> bool {
    0 <= a < vs.len() && vs[a].id == id && forall|j: int| a < j < vs.len() ==> vs[j].id != id
}

/// The segment recorded for an added edge runs from the end point `v0` to the end point
/// `v1` of the first edge with its identifier, each placed where the last vertex with
/// that identifier lies; there is one whenever such an edge and both its end points exist.
#[verifier::rlimit(30)]
pub proof fn law_recorded_segment_is_the_edge(after: CreasePatternModel, id: EdgeId)
    ensures
        edge_line(after, id) matches Some(l) ==> exists|k: int, a: int, b: int|
            #[trigger] first_edge_at(after.edges, id, k) && #[trigger] last_vertex_at(
                after.vertices,
                after.edges[k].v0,
                a,
            ) && #[trigger] last_vertex_at(after.vertices, after.edges[k].v1, b) && l == (CreaseLine {
                x0_bits: after.vertices[a].x_bits,
                y0_bits: after.vertices[a].y_bits,
                x1_bits: after.vertices[b].x_bits,
                y1_bits: after.vertices[b].y_bits,
            }),
        forall|k: int, a: int, b: int|
            #[trigger] first_edge_at(after.edges, id, k) && 0 <= a < after.vertices.len()
                && #[trigger] after.vertices[a].id == after.edges[k].v0 && 0 <= b < after.vertices.len()
                && #[trigger] after.vertices[b].id == after.edges[k].v1 ==> edge_line(after, id) is Some,
{
    let es = after.edges;
    let vs = after.vertices;
    lemma_first_edge(es, id);
    if first_edge(es, id) is Some {
        let e = first_edge(es, id)->Some_0;
        lemma_last_vertex(vs, e.v0);
        lemma_last_vertex(vs, e.v1);
        let k = choose|k: int|
            0 <= k < es.len() && es[k] == e && e.id == id && forall|j: int| 0 <= j < k ==> es[j].id != id;
        assert(first_edge_at(es, id, k));
        assert forall|k2: int| #[trigger] first_edge_at(es, id, k2) implies k2 == k by {
            if k2 < k {
                assert(es[k2].id == id);
            } else if k2 > k {
                assert(es[k].id == id);
            }
        }
        if edge_line(after, id) is Some {
            let a = choose|a: int|
                0 <= a < vs.len() && vs[a] == last_vertex(vs, e.v0)->Some_0 && last_vertex(vs, e.v0)->Some_0.id
                    == e.v0 && forall|j: int| a < j < vs.len() ==> vs[j].id != e.v0;
            let b = choose|b: int|
                0 <= b < vs.len() && vs[b] == last_vertex(vs, e.v1)->Some_0 && last_vertex(vs, e.v1)->Some_0.id
                    == e.v1 && forall|j: int| b < j < vs.len() ==> vs[j].id != e.v1;
            assert(last_vertex_at(vs, es[k].v0, a));
            assert(last_vertex_at(vs, es[k].v1, b));
        }
    } else {
        assert forall|k: int| !#[trigger] first_edge_at(es, id, k) by {
            if first_edge_at(es, id, k) {
                assert(es[k].id == id);
            }
        }
    }
}

} // verus!

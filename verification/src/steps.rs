//! Fold-sequence bookkeeping: step identifiers, the crease history kept per step,
//! insertion points and the list operations on the sequence.
use vstd::prelude::*;
use vstd::string::*;

use crate::model::{
    creases_model, steps_model, with_sequence, CreaseLine, CreasePattern, CreasePatternModel, Document, Edge, EdgeId,
    FoldStep, FoldStepModel, StepCreases, StepCreasesModel, StepId, TechniqueKind, Vertex, VertexId,
};
use crate::text::{decimal, message_with_number, push_decimal};

verus! {

// ---------------------------------------------------------------------------
// Specifications
// ---------------------------------------------------------------------------
/// The identifiers of a sequence of steps, in order.
pub open spec fn step_ids(s: Seq<FoldStepModel>) -> Seq<StepId> {
    s.map_values(|x: FoldStepModel| x.id)
}

/// The step identifiers of a crease history, in order.
pub open spec fn crease_step_ids(c: Seq<StepCreasesModel>) -> Seq<StepId> {
    c.map_values(|x: StepCreasesModel| x.step)
}

/// The largest element of a sequence of identifiers (`0` for the empty sequence).
pub open spec fn seq_max(s: Seq<u32>) -> u32
    decreases s.len(),
{
    if s.len() == 0 {
        0
    } else {
        let m = seq_max(s.drop_last());
        if s.last() > m {
            s.last()
        } else {
            m
        }
    }
}

/// The identifier given to a new step: one more than the largest identifier in use
/// (saturating at `u32::MAX`), or `0` when none is in use.
pub open spec fn fresh_step_id(ids: Seq<u32>) -> u32 {
    if ids.len() == 0 {
        0
    } else if seq_max(ids) == u32::MAX {
        u32::MAX
    } else {
        (seq_max(ids) + 1) as u32
    }
}

/// The crease records whose step is among `ids`, in their order.
pub open spec fn keep_existing(list: Seq<StepCreasesModel>, ids: Seq<StepId>) -> Seq<
    StepCreasesModel,
>
    decreases list.len(),
{
    if list.len() == 0 {
        Seq::empty()
    } else {
        let rest = keep_existing(list.drop_last(), ids);
        if ids.contains(list.last().step) {
            rest.push(list.last())
        } else {
            rest
        }
    }
}

/// The crease records of every step but `step`, in their order.
pub open spec fn without_step(list: Seq<StepCreasesModel>, step: StepId) -> Seq<StepCreasesModel>
    decreases list.len(),
{
    if list.len() == 0 {
        Seq::empty()
    } else {
        let rest = without_step(list.drop_last(), step);
        if list.last().step != step {
            rest.push(list.last())
        } else {
            rest
        }
    }
}

/// The crease history after recording `lines` for `step`: the earlier record of that
/// step, if any, is replaced by one new record at the end.
pub open spec fn recorded(list: Seq<StepCreasesModel>, step: StepId, lines: Seq<CreaseLine>) -> Seq<
    StepCreasesModel,
> {
    without_step(list, step).push(StepCreasesModel { step, lines })
}

/// The crease history after a step arrives from the editor: a pose step is recorded with
/// no added line, any other step leaves the history as it is.
pub open spec fn recorded_frontend(list: Seq<StepCreasesModel>, step: FoldStepModel) -> Seq<
    StepCreasesModel,
> {
    if step.kind == TechniqueKind::Pose {
        recorded(list, step.id, Seq::empty())
    } else {
        list
    }
}

/// Whether two steps of the sequence share an identifier.
pub open spec fn has_duplicate_ids(s: Seq<FoldStepModel>) -> bool {
    exists|i: int, j: int| 0 <= i < j < s.len() && s[i].id == s[j].id
}

/// Whether some step of the sequence has identifier `id`.
pub open spec fn has_step(s: Seq<FoldStepModel>, id: StepId) -> bool {
    exists|i: int| 0 <= i < s.len() && s[i].id == id
}

/// The position of the first step with identifier `id`.
pub open spec fn first_index(s: Seq<FoldStepModel>, id: StepId) -> int
    recommends
        has_step(s, id),
{
    choose|i: int| 0 <= i < s.len() && s[i].id == id && forall|k: int| 0 <= k < i ==> s[k].id != id
}

/// The sequence after moving the element at `from` so that it ends at index `to`.
pub open spec fn moved<T>(s: Seq<T>, from: int, to: int) -> Seq<T> {
    s.remove(from).insert(to, s[from])
}

/// The sequence without the steps whose identifier is `id`.
pub open spec fn without_id(s: Seq<FoldStepModel>, id: StepId) -> Seq<FoldStepModel>
    decreases s.len(),
{
    if s.len() == 0 {
        Seq::empty()
    } else {
        let rest = without_id(s.drop_last(), id);
        if s.last().id != id {
            rest.push(s.last())
        } else {
            rest
        }
    }
}

// ---------------------------------------------------------------------------
// Messages
// ---------------------------------------------------------------------------
/// "Insert position {index} exceeds the number of steps".
pub open spec fn msg_insert_out_of_range(index: nat) -> Seq<char> {
    "挿入位置 "@ + decimal(index) + " が手順の数を超えています"@
}

/// "Step ID {id} was not found".
pub open spec fn msg_step_not_found(id: nat) -> Seq<char> {
    "手順ID "@ + decimal(id) + " が見つかりません"@
}

/// "Destination {index} exceeds the number of steps".
pub open spec fn msg_move_out_of_range(index: nat) -> Seq<char> {
    "移動先 "@ + decimal(index) + " が手順の数を超えています"@
}

/// "The same fold step occurs twice".
pub open spec fn msg_duplicate_step() -> Seq<char> {
    "同じ折り手順が二重に入っています"@
}

/// The notice given when a fold is inserted before `later` existing steps, as step
/// number `position` (counted from one).
pub open spec fn msg_inserted_before(position: nat, later: nat) -> Seq<char> {
    "手順"@ + decimal(position) + "の前に折りを挟みました。後ろの手順"@ + decimal(later)
        + "個は折り直した形の上で再生し直しています(合わなくなった手順は飛ばして知らせます)"@
}

/// The notices given when a fold is inserted after the first `up_to` of `len` steps:
/// none at the end, otherwise one about the later steps being replayed.
pub open spec fn insert_notices(up_to: nat, len: nat) -> Seq<Seq<char>> {
    if up_to == len {
        Seq::empty()
    } else {
        seq![msg_inserted_before(up_to + 1, (len - up_to) as nat)]
    }
}

fn insert_out_of_range_message(index: usize) -> (s: String)
    ensures
        s@ == msg_insert_out_of_range(index as nat),
{
    message_with_number("挿入位置 ", index as u64, " が手順の数を超えています")
}

/// The message for a missing step identifier.
pub fn step_not_found_message(id: StepId) -> (s: String)
    ensures
        s@ == msg_step_not_found(id as nat),
{
    message_with_number("手順ID ", id as u64, " が見つかりません")
}

fn move_out_of_range_message(index: usize) -> (s: String)
    ensures
        s@ == msg_move_out_of_range(index as nat),
{
    message_with_number("移動先 ", index as u64, " が手順の数を超えています")
}

/// The message for a sequence in which two steps share an identifier.
pub fn duplicate_step_message() -> (s: String)
    ensures
        s@ == msg_duplicate_step(),
{
    String::from_str("同じ折り手順が二重に入っています")
}

// ---------------------------------------------------------------------------
// Lemmas
// ---------------------------------------------------------------------------
/// `seq_max` bounds every element and is one of them.
pub proof fn lemma_seq_max(s: Seq<u32>)
    ensures
        forall|i: int| 0 <= i < s.len() ==> s[i] <= seq_max(s),
        s.len() > 0 ==> s.contains(seq_max(s)),
    decreases s.len(),
{
    if s.len() > 0 {
        lemma_seq_max(s.drop_last());
        assert forall|i: int| 0 <= i < s.len() implies s[i] <= seq_max(s) by {
            if i < s.len() - 1 {
                assert(s[i] == s.drop_last()[i]);
            }
        }
        if s.last() > seq_max(s.drop_last()) {
            assert(s[s.len() - 1] == s.last());
        } else if s.len() > 1 {
            let k = choose|k: int| 0 <= k < s.drop_last().len() && s.drop_last()[k] == seq_max(
                s.drop_last(),
            );
            assert(s[k] == seq_max(s));
        } else {
            assert(s[0] == s.last());
        }
    }
}

/// An element is in `s.push(x)` exactly when it is in `s` or is `x`.
pub proof fn lemma_push_contains<A>(s: Seq<A>, x: A, c: A)
    ensures
        s.push(x).contains(c) <==> (s.contains(c) || c == x),
{
    if s.push(x).contains(c) {
        let k = choose|k: int| 0 <= k < s.push(x).len() && s.push(x)[k] == c;
        if k < s.len() {
            assert(s[k] == c);
        }
    }
    if s.contains(c) {
        let k = choose|k: int| 0 <= k < s.len() && s[k] == c;
        assert(s.push(x)[k] == c);
    }
    if c == x {
        assert(s.push(x)[s.len() as int] == x);
    }
}

/// Every record kept by `keep_existing` names a step of `ids`, and every record of
/// `list` naming such a step is kept.
pub proof fn lemma_keep_existing(list: Seq<StepCreasesModel>, ids: Seq<StepId>)
    ensures
        forall|c: StepCreasesModel| #[trigger]
            keep_existing(list, ids).contains(c) <==> (list.contains(c) && ids.contains(c.step)),
    decreases list.len(),
{
    if list.len() > 0 {
        let rest = keep_existing(list.drop_last(), ids);
        let x = list.last();
        lemma_keep_existing(list.drop_last(), ids);
        assert(list =~= list.drop_last().push(x));
        assert forall|c: StepCreasesModel| #[trigger]
            keep_existing(list, ids).contains(c) <==> (list.contains(c) && ids.contains(
                c.step,
            )) by {
            lemma_push_contains(list.drop_last(), x, c);
            lemma_push_contains(rest, x, c);
        }
    }
}

/// After removing a step's records no record of it remains, and the records of every
/// other step are untouched.
pub proof fn lemma_without_step(list: Seq<StepCreasesModel>, step: StepId)
    ensures
        forall|c: StepCreasesModel| #[trigger]
            without_step(list, step).contains(c) <==> (list.contains(c) && c.step != step),
    decreases list.len(),
{
    if list.len() > 0 {
        let rest = without_step(list.drop_last(), step);
        let x = list.last();
        lemma_without_step(list.drop_last(), step);
        assert(list =~= list.drop_last().push(x));
        assert forall|c: StepCreasesModel| #[trigger]
            without_step(list, step).contains(c) <==> (list.contains(c) && c.step != step) by {
            lemma_push_contains(list.drop_last(), x, c);
            lemma_push_contains(rest, x, c);
        }
    }
}

// ---------------------------------------------------------------------------
// Operations
// ---------------------------------------------------------------------------
/// The largest of a list of identifiers, if any.
fn max_id(ids: &Vec<u32>) -> (r: Option<u32>)
    ensures
        ids@.len() == 0 ==> r is None,
        ids@.len() > 0 ==> r == Some(seq_max(ids@)),
{
    if ids.len() == 0 {
        return None;
    }
    let mut m: u32 = 0;
    let mut i: usize = 0;
    while i < ids.len()
        invariant
            i <= ids.len(),
            m == seq_max(ids@.subrange(0, i as int)),
        decreases ids.len() - i,
    {
        proof {
            assert(ids@.subrange(0, i + 1).drop_last() =~= ids@.subrange(0, i as int));
        }
        if ids[i] > m {
            m = ids[i];
        }
        i = i + 1;
    }
    proof {
        assert(ids@.subrange(0, i as int) =~= ids@);
    }
    Some(m)
}

/// The identifier for a new step: one more than the largest identifier used by the
/// sequence or by the crease history (including records of removed steps), so that a
/// new step never inherits the history of an old one.
pub fn next_step_id(doc: &Document, step_creases: &Vec<StepCreases>) -> (r: StepId)
    ensures
        r == fresh_step_id(
            step_ids(doc@.sequence) + crease_step_ids(creases_model(step_creases@)),
        ),
{
    let mut ids: Vec<u32> = Vec::new();
    let mut i: usize = 0;
    while i < doc.sequence.len()
        invariant
            i <= doc.sequence.len(),
            ids@ =~= step_ids(doc@.sequence).subrange(0, i as int),
        decreases doc.sequence.len() - i,
    {
        ids.push(doc.sequence[i].id);
        i = i + 1;
    }
    let mut j: usize = 0;
    while j < step_creases.len()
        invariant
            i == doc.sequence.len(),
            j <= step_creases.len(),
            ids@ =~= step_ids(doc@.sequence) + crease_step_ids(creases_model(step_creases@)).subrange(
                0,
                j as int,
            ),
        decreases step_creases.len() - j,
    {
        ids.push(step_creases[j].step);
        j = j + 1;
    }
    proof {
        assert(crease_step_ids(creases_model(step_creases@)).subrange(0, j as int)
            =~= crease_step_ids(creases_model(step_creases@)));
    }
    match max_id(&ids) {
        None => 0,
        Some(m) => m.saturating_add(1),
    }
}

/// Whether a step with identifier `id` is in the sequence.
pub fn contains_step(sequence: &Vec<FoldStep>, id: StepId) -> (r: bool)
    ensures
        r == has_step(steps_model(sequence@), id),
        r == step_ids(steps_model(sequence@)).contains(id),
{
    let mut i: usize = 0;
    while i < sequence.len()
        invariant
            i <= sequence.len(),
            forall|k: int| 0 <= k < i ==> sequence@[k].id != id,
        decreases sequence.len() - i,
    {
        if sequence[i].id == id {
            proof {
                assert(steps_model(sequence@)[i as int].id == id);
                assert(step_ids(steps_model(sequence@))[i as int] == id);
            }
            return true;
        }
        i = i + 1;
    }
    proof {
        assert forall|k: int| 0 <= k < steps_model(sequence@).len() implies steps_model(
            sequence@,
        )[k].id != id by {
            assert(steps_model(sequence@)[k] == sequence@[k]@);
        }
        if step_ids(steps_model(sequence@)).contains(id) {
            let k = choose|k: int|
                0 <= k < step_ids(steps_model(sequence@)).len() && step_ids(
                    steps_model(sequence@),
                )[k] == id;
            assert(steps_model(sequence@)[k].id == id);
        }
    }
    false
}

/// The crease records of the steps that exist in the sequence, for saving and showing.
pub fn retain_existing_steps(doc: &Document, step_creases: &Vec<StepCreases>) -> (r: Vec<StepCreases>)
    ensures
        creases_model(r@) == keep_existing(
            creases_model(step_creases@),
            step_ids(doc@.sequence),
        ),
{
    let ghost ids = step_ids(doc@.sequence);
    let ghost all = creases_model(step_creases@);
    let mut r: Vec<StepCreases> = Vec::new();
    let mut i: usize = 0;
    while i < step_creases.len()
        invariant
            i <= step_creases.len(),
            ids == step_ids(doc@.sequence),
            all == creases_model(step_creases@),
            creases_model(r@) =~= keep_existing(all.subrange(0, i as int), ids),
        decreases step_creases.len() - i,
    {
        proof {
            assert(all.subrange(0, i + 1).drop_last() =~= all.subrange(0, i as int));
            assert(all.subrange(0, i + 1).last() == step_creases@[i as int]@);
        }
        if contains_step(&doc.sequence, step_creases[i].step) {
            let c = step_creases[i].clone();
            r.push(c);
            proof {
                assert(creases_model(r@) =~= keep_existing(all.subrange(0, i as int), ids).push(
                    step_creases@[i as int]@,
                ));
            }
        }
        i = i + 1;
    }
    proof {
        assert(all.subrange(0, i as int) =~= all);
    }
    r
}

/// Records the lines a step added: any earlier record of the step is dropped and one
/// record is appended. A step that added no line is recorded with an empty list, as
/// evidence that it added none.
pub fn record_step_creases(list: &mut Vec<StepCreases>, step: StepId, lines: Vec<CreaseLine>)
    ensures
        creases_model(final(list)@) == recorded(creases_model(old(list)@), step, lines@),
{
    let ghost before = creases_model(list@);
    let mut kept: Vec<StepCreases> = Vec::new();
    let mut i: usize = 0;
    while i < list.len()
        invariant
            i <= list.len(),
            before == creases_model(list@),
            creases_model(kept@) =~= without_step(before.subrange(0, i as int), step),
        decreases list.len() - i,
    {
        proof {
            assert(before.subrange(0, i + 1).drop_last() =~= before.subrange(0, i as int));
            assert(before.subrange(0, i + 1).last() == list@[i as int]@);
        }
        if list[i].step != step {
            let c = list[i].clone();
            kept.push(c);
            proof {
                assert(creases_model(kept@) =~= without_step(before.subrange(0, i as int), step).push(
                    list@[i as int]@,
                ));
            }
        }
        i = i + 1;
    }
    proof {
        assert(before.subrange(0, i as int) =~= before);
    }
    kept.push(StepCreases { step, lines });
    proof {
        assert(creases_model(kept@) =~= recorded(before, step, lines@));
    }
    *list = kept;
}

/// Records a step that arrives from the editor. Steps the editor creates are poses,
/// which add no line: they get an empty record, so that they do not inherit the record
/// of an older step with the same identifier. Other steps arrive only when steps are
/// reordered, and their record is kept as it is.
pub fn record_frontend_step(list: &mut Vec<StepCreases>, step: &FoldStep)
    ensures
        creases_model(final(list)@) == recorded_frontend(creases_model(old(list)@), step@),
{
    if step.kind == TechniqueKind::Pose {
        let none: Vec<CreaseLine> = Vec::new();
        proof {
            assert(none@ =~= Seq::<CreaseLine>::empty());
        }
        record_step_creases(list, step.id, none);
    }
}

/// Checks where a fold is inserted: `up_to` is the number of steps before it. Inserting
/// in the middle is allowed; the result is then a notice that the later steps are
/// replayed on the refolded shape.
pub fn check_insert_point(doc: &Document, up_to: usize) -> (r: Result<Vec<String>, String>)
    ensures
        up_to > doc@.sequence.len() ==> (r matches Err(e) && e@ == msg_insert_out_of_range(
            up_to as nat,
        )),
        up_to == doc@.sequence.len() ==> (r matches Ok(w) && w@.len() == 0),
        up_to < doc@.sequence.len() ==> (r matches Ok(w) && w@.len() == 1 && w@[0]@
            == msg_inserted_before((up_to + 1) as nat, (doc@.sequence.len() - up_to) as nat)),
{
    let len = doc.sequence.len();
    if up_to > len {
        return Err(insert_out_of_range_message(up_to));
    }
    if up_to == len {
        return Ok(Vec::new());
    }
    let mut s = String::from_str("手順");
    push_decimal(&mut s, (up_to + 1) as u64);
    s.append("の前に折りを挟みました。後ろの手順");
    push_decimal(&mut s, (len - up_to) as u64);
    s.append("個は折り直した形の上で再生し直しています(合わなくなった手順は飛ばして知らせます)");
    let mut w = Vec::new();
    w.push(s);
    Ok(w)
}

// ---------------------------------------------------------------------------
// Crease lines added by a fold
// ---------------------------------------------------------------------------
/// The identifiers of a list of edges, in order.
pub open spec fn edge_ids(es: Seq<Edge>) -> Seq<EdgeId> {
    es.map_values(|e: Edge| e.id)
}

/// The last vertex of the list with identifier `id`, if any (a later entry overrides an
/// earlier one with the same identifier).
pub open spec fn last_vertex(vs: Seq<Vertex>, id: VertexId) -> Option<Vertex>
    decreases vs.len(),
{
    if vs.len() == 0 {
        None
    } else if vs.last().id == id {
        Some(vs.last())
    } else {
        last_vertex(vs.drop_last(), id)
    }
}

/// The first edge of the list with identifier `id`, if any.
pub open spec fn first_edge(es: Seq<Edge>, id: EdgeId) -> Option<Edge>
    decreases es.len(),
{
    if es.len() == 0 {
        None
    } else if es[0].id == id {
        Some(es[0])
    } else {
        first_edge(es.drop_first(), id)
    }
}

/// The segment of edge `id` of `after`, if the edge and both its end points exist there.
pub open spec fn edge_line(after: CreasePatternModel, id: EdgeId) -> Option<CreaseLine> {
    match first_edge(after.edges, id) {
        None => None,
        Some(e) => match (last_vertex(after.vertices, e.v0), last_vertex(after.vertices, e.v1)) {
            (Some(a), Some(b)) => Some(
                CreaseLine { x0_bits: a.x_bits, y0_bits: a.y_bits, x1_bits: b.x_bits, y1_bits: b.y_bits },
            ),
            _ => None,
        },
    }
}

/// The segments, in the order of `added`, of the added edges that did not exist before
/// the fold and whose segment can be found in the crease pattern after it.
pub open spec fn new_crease_lines(
    before: CreasePatternModel,
    after: CreasePatternModel,
    added: Seq<EdgeId>,
) -> Seq<CreaseLine>
    decreases added.len(),
{
    if added.len() == 0 {
        Seq::empty()
    } else {
        let rest = new_crease_lines(before, after, added.drop_last());
        let id = added.last();
        if edge_ids(before.edges).contains(id) {
            rest
        } else {
            match edge_line(after, id) {
                Some(l) => rest.push(l),
                None => rest,
            }
        }
    }
}

pub(crate) fn find_last_vertex(vs: &Vec<Vertex>, id: VertexId) -> (r: Option<Vertex>)
    ensures
        r == last_vertex(vs@, id),
{
    let mut i: usize = vs.len();
    proof {
        assert(vs@.subrange(0, i as int) =~= vs@);
    }
    while i > 0
        invariant
            i <= vs.len(),
            last_vertex(vs@, id) == last_vertex(vs@.subrange(0, i as int), id),
        decreases i,
    {
        proof {
            assert(vs@.subrange(0, i as int).drop_last() =~= vs@.subrange(0, i - 1));
            assert(vs@.subrange(0, i as int).last() == vs@[i - 1]);
        }
        if vs[i - 1].id == id {
            return Some(vs[i - 1]);
        }
        i = i - 1;
    }
    None
}

fn find_first_edge(es: &Vec<Edge>, id: EdgeId) -> (r: Option<Edge>)
    ensures
        r == first_edge(es@, id),
{
    let mut i: usize = 0;
    proof {
        assert(es@.subrange(0, es@.len() as int) =~= es@);
    }
    while i < es.len()
        invariant
            i <= es.len(),
            first_edge(es@, id) == first_edge(es@.subrange(i as int, es@.len() as int), id),
        decreases es.len() - i,
    {
        proof {
            assert(es@.subrange(i as int, es@.len() as int).drop_first() =~= es@.subrange(
                i + 1,
                es@.len() as int,
            ));
            assert(es@.subrange(i as int, es@.len() as int)[0] == es@[i as int]);
        }
        if es[i].id == id {
            return Some(es[i]);
        }
        i = i + 1;
    }
    None
}

fn has_edge_id(es: &Vec<Edge>, id: EdgeId) -> (r: bool)
    ensures
        r == edge_ids(es@).contains(id),
{
    let mut i: usize = 0;
    while i < es.len()
        invariant
            i <= es.len(),
            forall|k: int| 0 <= k < i ==> es@[k].id != id,
        decreases es.len() - i,
    {
        if es[i].id == id {
            proof {
                assert(edge_ids(es@)[i as int] == id);
            }
            return true;
        }
        i = i + 1;
    }
    proof {
        if edge_ids(es@).contains(id) {
            let k = choose|k: int| 0 <= k < edge_ids(es@).len() && #[trigger] edge_ids(es@)[k] == id;
            assert(es@[k].id == id);
        }
    }
    false
}

/// The crease lines a fold newly added to the crease pattern: the segments of the added
/// edges that did not exist before. An auxiliary line promoted to a crease keeps its
/// identifier, so it counts as drawn beforehand and is not listed.
pub fn added_crease_lines(before: &CreasePattern, after: &CreasePattern, added: &Vec<EdgeId>) -> (r: Vec<CreaseLine>)
    ensures
        r@ == new_crease_lines(before@, after@, added@),
        r@.len() == added@.filter(
            |id: EdgeId| !edge_ids(before@.edges).contains(id) && edge_line(after@, id) is Some,
        ).len(),
{
    proof {
        crate::laws::law_fold_records_every_added_line(before@, after@, added@);
    }
    let mut r: Vec<CreaseLine> = Vec::new();
    let mut i: usize = 0;
    while i < added.len()
        invariant
            i <= added.len(),
            r@ =~= new_crease_lines(before@, after@, added@.subrange(0, i as int)),
        decreases added.len() - i,
    {
        let id = added[i];
        proof {
            assert(added@.subrange(0, i + 1).drop_last() =~= added@.subrange(0, i as int));
            assert(added@.subrange(0, i + 1).last() == id);
        }
        if !has_edge_id(&before.edges, id) {
            match find_first_edge(&after.edges, id) {
                Some(e) => {
                    match (find_last_vertex(&after.vertices, e.v0), find_last_vertex(&after.vertices, e.v1)) {
                        (Some(a), Some(b)) => {
                            r.push(
                                CreaseLine {
                                    x0_bits: a.x_bits,
                                    y0_bits: a.y_bits,
                                    x1_bits: b.x_bits,
                                    y1_bits: b.y_bits,
                                },
                            );
                        },
                        _ => {},
                    }
                },
                None => {},
            }
        }
        i = i + 1;
    }
    proof {
        assert(added@.subrange(0, i as int) =~= added@);
    }
    r
}

} // verus!

verus! {

// ---------------------------------------------------------------------------
// List operations on the fold sequence
// ---------------------------------------------------------------------------
proof fn lemma_steps_model_insert(s: Seq<FoldStep>, i: int, x: FoldStep)
    requires
        0 <= i <= s.len(),
    ensures
        steps_model(s.insert(i, x)) == steps_model(s).insert(i, x@),
{
    assert(steps_model(s.insert(i, x)) =~= steps_model(s).insert(i, x@));
}

proof fn lemma_steps_model_remove(s: Seq<FoldStep>, i: int)
    requires
        0 <= i < s.len(),
    ensures
        steps_model(s.remove(i)) == steps_model(s).remove(i),
{
    assert(steps_model(s.remove(i)) =~= steps_model(s).remove(i));
}

/// Moving an element to the index where it already is changes nothing.
pub proof fn lemma_moved_in_place<T>(s: Seq<T>, i: int)
    requires
        0 <= i < s.len(),
    ensures
        moved(s, i, i) == s,
{
    assert(moved(s, i, i) =~= s);
}

/// Appends a step from the editor to the sequence.
pub fn push_step(doc: &mut Document, step_creases: &mut Vec<StepCreases>, step: FoldStep)
    ensures
        final(doc)@ == with_sequence(old(doc)@, old(doc)@.sequence.push(step@)),
        creases_model(final(step_creases)@) == recorded_frontend(
            creases_model(old(step_creases)@),
            step@,
        ),
{
    record_frontend_step(step_creases, &step);
    let ghost before = doc.sequence@;
    doc.sequence.push(step);
    proof {
        assert(steps_model(doc.sequence@) =~= steps_model(before).push(step@));
    }
}

/// Inserts a step from the editor at `index` (at most the number of steps).
pub fn insert_step(
    doc: &mut Document,
    step_creases: &mut Vec<StepCreases>,
    index: usize,
    step: FoldStep,
) -> (r: Result<(), String>)
    ensures
        index > old(doc)@.sequence.len() ==> (r matches Err(e) && e@ == msg_insert_out_of_range(
            index as nat,
        ) && final(doc)@ == old(doc)@ && creases_model(final(step_creases)@) == creases_model(
            old(step_creases)@,
        )),
        index <= old(doc)@.sequence.len() ==> (r is Ok && final(doc)@ == with_sequence(
            old(doc)@,
            old(doc)@.sequence.insert(index as int, step@),
        ) && creases_model(final(step_creases)@) == recorded_frontend(
            creases_model(old(step_creases)@),
            step@,
        )),
{
    if index > doc.sequence.len() {
        return Err(insert_out_of_range_message(index));
    }
    record_frontend_step(step_creases, &step);
    let ghost before = doc.sequence@;
    doc.sequence.insert(index, step);
    proof {
        lemma_steps_model_insert(before, index as int, step);
    }
    Ok(())
}

/// Removes every step with identifier `id`; fails when there is none. The crease
/// history is kept: reordering is a removal followed by an insertion.
pub fn remove_step(doc: &mut Document, id: StepId) -> (r: Result<(), String>)
    ensures
        !has_step(old(doc)@.sequence, id) ==> (r matches Err(e) && e@ == msg_step_not_found(
            id as nat,
        ) && final(doc)@ == old(doc)@),
        has_step(old(doc)@.sequence, id) ==> (r is Ok && final(doc)@ == with_sequence(
            old(doc)@,
            without_id(old(doc)@.sequence, id),
        )),
        has_step(old(doc)@.sequence, id) ==> ({
            let before = old(doc)@.sequence;
            let after = final(doc)@.sequence;
            &&& forall|i: int| 0 <= i < before.len() && before[i].id != id ==> #[trigger] after.contains(before[i])
            &&& forall|j: int| 0 <= j < after.len() ==> (#[trigger] after[j]).id != id
            &&& after.len() + before.filter(|x: FoldStepModel| x.id == id).len() == before.len()
        }),
{
    let ghost all = steps_model(doc.sequence@);
    let mut kept: Vec<FoldStep> = Vec::new();
    let mut found = false;
    let mut i: usize = 0;
    while i < doc.sequence.len()
        invariant
            i <= doc.sequence.len(),
            all == steps_model(doc.sequence@),
            steps_model(kept@) =~= without_id(all.subrange(0, i as int), id),
            found == has_step(all.subrange(0, i as int), id),
        decreases doc.sequence.len() - i,
    {
        proof {
            assert(all.subrange(0, i + 1).drop_last() =~= all.subrange(0, i as int));
            assert(all.subrange(0, i + 1).last() == doc.sequence@[i as int]@);
            let pre = all.subrange(0, i as int);
            let next = all.subrange(0, i + 1);
            if has_step(pre, id) {
                let k = choose|k: int| 0 <= k < pre.len() && #[trigger] pre[k].id == id;
                assert(next[k].id == id);
            }
            if has_step(next, id) && !has_step(pre, id) {
                let k = choose|k: int| 0 <= k < next.len() && #[trigger] next[k].id == id;
                if k < i {
                    assert(pre[k].id == id);
                }
            }
        }
        if doc.sequence[i].id != id {
            let step = doc.sequence[i].clone();
            kept.push(step);
            proof {
                assert(steps_model(kept@) =~= without_id(all.subrange(0, i as int), id).push(
                    doc.sequence@[i as int]@,
                ));
            }
        } else {
            found = true;
            proof {
                assert(all.subrange(0, i + 1)[i as int].id == id);
            }
        }
        i = i + 1;
    }
    proof {
        assert(all.subrange(0, i as int) =~= all);
    }
    if !found {
        return Err(step_not_found_message(id));
    }
    doc.sequence = kept;
    proof {
        crate::laws::law_remove_step_keeps_the_other_steps(all, id);
    }
    Ok(())
}

/// The position of the first step with identifier `id`, if any.
pub fn position_of(sequence: &Vec<FoldStep>, id: StepId) -> (r: Option<usize>)
    ensures
        r is None <==> !has_step(steps_model(sequence@), id),
        r matches Some(i) ==> i == first_index(steps_model(sequence@), id) && i
            < sequence@.len() && sequence@[i as int].id == id && forall|k: int|
            0 <= k < i ==> sequence@[k].id != id,
{
    let mut i: usize = 0;
    while i < sequence.len()
        invariant
            i <= sequence.len(),
            forall|k: int| 0 <= k < i ==> sequence@[k].id != id,
        decreases sequence.len() - i,
    {
        if sequence[i].id == id {
            proof {
                let m = steps_model(sequence@);
                assert(m[i as int].id == id);
                let f = first_index(m, id);
                assert(0 <= f < m.len() && m[f].id == id && forall|k: int|
                    0 <= k < f ==> m[k].id != id);
                if f < i {
                    assert(sequence@[f]@ == m[f]);
                }
                if f > i {
                    assert(m[i as int].id == id);
                }
            }
            return Some(i);
        }
        i = i + 1;
    }
    proof {
        let m = steps_model(sequence@);
        if has_step(m, id) {
            let k = choose|k: int| 0 <= k < m.len() && m[k].id == id;
            assert(sequence@[k]@ == m[k]);
        }
    }
    None
}

/// Replaces the first step that has the identifier of `step`; fails when there is none.
pub fn update_step(doc: &mut Document, step: FoldStep) -> (r: Result<(), String>)
    ensures
        !has_step(old(doc)@.sequence, step@.id) ==> (r matches Err(e) && e@ == msg_step_not_found(
            step@.id as nat,
        ) && final(doc)@ == old(doc)@),
        has_step(old(doc)@.sequence, step@.id) ==> (r is Ok && final(doc)@ == with_sequence(
            old(doc)@,
            old(doc)@.sequence.update(first_index(old(doc)@.sequence, step@.id), step@),
        )),
{
    match position_of(&doc.sequence, step.id) {
        None => Err(step_not_found_message(step.id)),
        Some(i) => {
            let ghost before = doc.sequence@;
            let ghost sm = step@;
            doc.sequence.set(i, step);
            proof {
                assert(steps_model(doc.sequence@) =~= steps_model(before).update(i as int, sm));
            }
            Ok(())
        },
    }
}

/// Whether two steps of the sequence share an identifier.
pub fn duplicate_ids(sequence: &Vec<FoldStep>) -> (r: bool)
    ensures
        r == has_duplicate_ids(steps_model(sequence@)),
{
    let ghost m = steps_model(sequence@);
    let mut j: usize = 0;
    while j < sequence.len()
        invariant
            j <= sequence.len(),
            m == steps_model(sequence@),
            forall|a: int, b: int| 0 <= a < b < j ==> m[a].id != m[b].id,
        decreases sequence.len() - j,
    {
        let mut i: usize = 0;
        while i < j
            invariant
                i <= j < sequence.len(),
                m == steps_model(sequence@),
                forall|a: int, b: int| 0 <= a < b < j ==> m[a].id != m[b].id,
                forall|a: int| 0 <= a < i ==> m[a].id != m[j as int].id,
            decreases j - i,
        {
            if sequence[i].id == sequence[j].id {
                proof {
                    assert(m[i as int].id == m[j as int].id);
                }
                return true;
            }
            i = i + 1;
        }
        j = j + 1;
    }
    false
}

/// Moves the step with identifier `id` so that it ends at index `to_index` of the moved
/// sequence. A sequence in which two steps share an identifier is refused whatever the
/// target, then a missing identifier, then an index past the last step; moving a step
/// to where it already is succeeds and changes nothing. Returns the index it was taken from.
pub fn move_step_in_sequence(doc: &mut Document, id: StepId, to_index: usize) -> (r: Result<usize, String>)
    ensures
        has_duplicate_ids(old(doc)@.sequence) ==> (r matches Err(e) && e@ == msg_duplicate_step()),
        !has_duplicate_ids(old(doc)@.sequence) && !has_step(old(doc)@.sequence, id) ==> (r matches Err(
            e,
        ) && e@ == msg_step_not_found(id as nat)),
        !has_duplicate_ids(old(doc)@.sequence) && has_step(old(doc)@.sequence, id) && to_index
            >= old(doc)@.sequence.len() ==> (r matches Err(e) && e@ == msg_move_out_of_range(
            to_index as nat,
        )),
        r is Err ==> final(doc)@ == old(doc)@,
        r is Ok <==> (!has_duplicate_ids(old(doc)@.sequence) && has_step(old(doc)@.sequence, id)
            && to_index < old(doc)@.sequence.len()),
        r matches Ok(from) ==> from == first_index(old(doc)@.sequence, id) && final(doc)@
            == with_sequence(old(doc)@, moved(old(doc)@.sequence, from as int, to_index as int)),
{
    if duplicate_ids(&doc.sequence) {
        return Err(duplicate_step_message());
    }
    let from = match position_of(&doc.sequence, id) {
        None => {
            return Err(step_not_found_message(id));
        },
        Some(i) => i,
    };
    if to_index >= doc.sequence.len() {
        return Err(move_out_of_range_message(to_index));
    }
    let ghost before = doc.sequence@;
    if from != to_index {
        let step = doc.sequence.remove(from);
        doc.sequence.insert(to_index, step);
        proof {
            lemma_steps_model_remove(before, from as int);
            lemma_steps_model_insert(before.remove(from as int), to_index as int, step);
            assert(step@ == steps_model(before)[from as int]);
        }
    } else {
        proof {
            lemma_moved_in_place(steps_model(before), from as int);
        }
    }
    Ok(from)
}

} // verus!

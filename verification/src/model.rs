//! The document data model as plain values.
//!
//! Coordinates, angles and other real-valued quantities are held as the bit patterns
//! of their IEEE-754 binary64 values (`f64::to_bits`): the library stores, copies and
//! compares them exactly, and never computes with them.
use vstd::prelude::*;

verus! {

/// Identifier of a vertex of the crease pattern.
pub type VertexId = u32;

/// Identifier of an edge of the crease pattern.
pub type EdgeId = u32;

/// Identifier of a face derived from the crease pattern.
pub type FaceId = u32;

/// Identifier of a fold step.
pub type StepId = u32;

/// Smallest number of grid divisions the display accepts.
pub const MIN_GRID_DIVISIONS: u32 = 1;

/// Largest number of grid divisions the display accepts.
pub const MAX_GRID_DIVISIONS: u32 = 1024;

/// The kind of a line of the crease pattern.
#[derive(Clone, Copy, Debug, PartialEq, Eq, Structural)]
pub enum EdgeKind {
    Border,
    Mountain,
    Valley,
    Aux,
}

/// A vertex: its identifier and the bit patterns of its two coordinates.
#[derive(Clone, Copy, Debug, PartialEq, Eq, Structural)]
pub struct Vertex {
    pub id: VertexId,
    pub x_bits: u64,
    pub y_bits: u64,
}

/// An edge between two vertices.
#[derive(Clone, Copy, Debug, PartialEq, Eq, Structural)]
pub struct Edge {
    pub id: EdgeId,
    pub v0: VertexId,
    pub v1: VertexId,
    pub kind: EdgeKind,
}

/// The sheet size in millimetres (bit patterns of the two lengths).
#[derive(Clone, Copy, Debug, PartialEq, Eq, Structural)]
pub struct Paper {
    pub width_bits: u64,
    pub height_bits: u64,
}

/// A colour.
#[derive(Clone, Copy, Debug, PartialEq, Eq, Structural)]
pub struct Rgb {
    pub r: u8,
    pub g: u8,
    pub b: u8,
}

/// How the work is displayed; saved with the document.
#[derive(Clone, Copy, Debug, PartialEq, Eq, Structural)]
pub struct DisplaySettings {
    pub front_color: Rgb,
    pub back_color: Rgb,
    pub grid_divisions: u32,
    pub soft_enabled: bool,
    pub soft_stiffness_bits: u64,
    pub soft_pressure_bits: u64,
    pub overlap_prevention_enabled: bool,
    pub penetration_prevention_enabled: bool,
}

/// The kind of a fold step.
#[derive(Clone, Copy, Debug, PartialEq, Eq, Structural)]
pub enum TechniqueKind {
    Simple,
    Pose,
    Pleat,
    InsideReverse,
    OutsideReverse,
    Squash,
    Petal,
    OpenSink,
    Swivel,
    Twist,
    Rabbit,
    Sink,
}

/// One requested hinge of a fold step: a segment of the crease pattern and its target
/// angle (bit patterns).
#[derive(Clone, Copy, Debug, PartialEq, Eq, Structural)]
pub struct DriverLine {
    pub ax_bits: u64,
    pub ay_bits: u64,
    pub bx_bits: u64,
    pub by_bits: u64,
    pub target_angle_bits: u64,
}

/// A line segment of the crease pattern (bit patterns of both end points).
#[derive(Clone, Copy, Debug, PartialEq, Eq, Structural)]
pub struct CreaseLine {
    pub x0_bits: u64,
    pub y0_bits: u64,
    pub x1_bits: u64,
    pub y1_bits: u64,
}

/// The crease pattern: vertices, edges and the next free identifiers.
#[derive(Debug, PartialEq)]
pub struct CreasePattern {
    pub vertices: Vec<Vertex>,
    pub edges: Vec<Edge>,
    pub next_vertex_id: VertexId,
    pub next_edge_id: EdgeId,
}

/// Mathematical value of a [`CreasePattern`].
pub struct CreasePatternModel {
    pub vertices: Seq<Vertex>,
    pub edges: Seq<Edge>,
    pub next_vertex_id: VertexId,
    pub next_edge_id: EdgeId,
}

impl View for CreasePattern {
    type V = CreasePatternModel;

    open spec fn view(&self) -> CreasePatternModel {
        CreasePatternModel {
            vertices: self.vertices@,
            edges: self.edges@,
            next_vertex_id: self.next_vertex_id,
            next_edge_id: self.next_edge_id,
        }
    }
}

/// A fold step of the sequence.
#[derive(Debug, PartialEq)]
pub struct FoldStep {
    pub id: StepId,
    pub kind: TechniqueKind,
    pub drivers: Vec<DriverLine>,
    pub note: String,
    /// Further settings of the step (layer order, alignment, finishing), kept as written.
    pub extra: String,
}

/// Mathematical value of a [`FoldStep`].
pub struct FoldStepModel {
    pub id: StepId,
    pub kind: TechniqueKind,
    pub drivers: Seq<DriverLine>,
    pub note: Seq<char>,
    pub extra: Seq<char>,
}

impl View for FoldStep {
    type V = FoldStepModel;

    open spec fn view(&self) -> FoldStepModel {
        FoldStepModel {
            id: self.id,
            kind: self.kind,
            drivers: self.drivers@,
            note: self.note@,
            extra: self.extra@,
        }
    }
}

/// The work: sheet, crease pattern, display settings and fold sequence.
#[derive(Debug, PartialEq)]
pub struct Document {
    pub paper: Paper,
    pub cp: CreasePattern,
    pub display: DisplaySettings,
    pub sequence: Vec<FoldStep>,
}

/// Mathematical value of a [`Document`].
pub struct DocumentModel {
    pub paper: Paper,
    pub cp: CreasePatternModel,
    pub display: DisplaySettings,
    pub sequence: Seq<FoldStepModel>,
}

/// The document `d` with its fold sequence replaced by `s`.
pub open spec fn with_sequence(d: DocumentModel, s: Seq<FoldStepModel>) -> DocumentModel {
    DocumentModel { paper: d.paper, cp: d.cp, display: d.display, sequence: s }
}

/// The models of a sequence of fold steps.
pub open spec fn steps_model(steps: Seq<FoldStep>) -> Seq<FoldStepModel> {
    steps.map_values(|s: FoldStep| s@)
}

impl View for Document {
    type V = DocumentModel;

    open spec fn view(&self) -> DocumentModel {
        DocumentModel {
            paper: self.paper,
            cp: self.cp@,
            display: self.display,
            sequence: steps_model(self.sequence@),
        }
    }
}

/// The crease lines a fold step added to the crease pattern.
#[derive(Debug, PartialEq)]
pub struct StepCreases {
    pub step: StepId,
    pub lines: Vec<CreaseLine>,
}

/// Mathematical value of a [`StepCreases`].
pub struct StepCreasesModel {
    pub step: StepId,
    pub lines: Seq<CreaseLine>,
}

impl View for StepCreases {
    type V = StepCreasesModel;

    open spec fn view(&self) -> StepCreasesModel {
        StepCreasesModel { step: self.step, lines: self.lines@ }
    }
}

/// The models of a list of step crease records.
pub open spec fn creases_model(list: Seq<StepCreases>) -> Seq<StepCreasesModel> {
    list.map_values(|c: StepCreases| c@)
}

/// A face derived from the crease pattern: its boundary vertices and edges.
#[derive(Debug, PartialEq)]
pub struct Face {
    pub id: FaceId,
    pub vertices: Vec<VertexId>,
    pub edges: Vec<EdgeId>,
}

/// Mathematical value of a [`Face`].
pub struct FaceModel {
    pub id: FaceId,
    pub vertices: Seq<VertexId>,
    pub edges: Seq<EdgeId>,
}

impl View for Face {
    type V = FaceModel;

    open spec fn view(&self) -> FaceModel {
        FaceModel { id: self.id, vertices: self.vertices@, edges: self.edges@ }
    }
}

/// The models of a list of faces.
pub open spec fn faces_model(faces: Seq<Face>) -> Seq<FaceModel> {
    faces.map_values(|f: Face| f@)
}

/// Saved form of a work: the document and the crease history of its steps.
#[derive(Debug, PartialEq)]
pub struct SavedDocument {
    pub document: Document,
    pub step_creases: Vec<StepCreases>,
}

// ---------------------------------------------------------------------------
// Copies
// ---------------------------------------------------------------------------
impl Clone for CreasePattern {
    fn clone(&self) -> (r: Self)
        ensures
            r@ == self@,
    {
        let vertices = self.vertices.clone();
        let edges = self.edges.clone();
        proof {
            assert(vertices@ =~= self.vertices@);
            assert(edges@ =~= self.edges@);
        }
        CreasePattern {
            vertices,
            edges,
            next_vertex_id: self.next_vertex_id,
            next_edge_id: self.next_edge_id,
        }
    }
}

impl Clone for FoldStep {
    fn clone(&self) -> (r: Self)
        ensures
            r@ == self@,
    {
        let drivers = self.drivers.clone();
        proof {
            assert(drivers@ =~= self.drivers@);
        }
        FoldStep {
            id: self.id,
            kind: self.kind,
            drivers,
            note: self.note.clone(),
            extra: self.extra.clone(),
        }
    }
}

impl Clone for StepCreases {
    fn clone(&self) -> (r: Self)
        ensures
            r@ == self@,
    {
        let lines = self.lines.clone();
        proof {
            assert(lines@ =~= self.lines@);
        }
        StepCreases { step: self.step, lines }
    }
}

impl Clone for Face {
    fn clone(&self) -> (r: Self)
        ensures
            r@ == self@,
    {
        let vertices = self.vertices.clone();
        let edges = self.edges.clone();
        proof {
            assert(vertices@ =~= self.vertices@);
            assert(edges@ =~= self.edges@);
        }
        Face { id: self.id, vertices, edges }
    }
}

/// A copy of a list of fold steps.
pub fn clone_steps(steps: &Vec<FoldStep>) -> (r: Vec<FoldStep>)
    ensures
        steps_model(r@) == steps_model(steps@),
{
    let mut r: Vec<FoldStep> = Vec::new();
    let mut i: usize = 0;
    while i < steps.len()
        invariant
            i <= steps.len(),
            r.len() == i,
            forall|j: int| 0 <= j < i ==> r@[j]@ == steps@[j]@,
        decreases steps.len() - i,
    {
        r.push(steps[i].clone());
        i = i + 1;
    }
    proof {
        assert(steps_model(r@) =~= steps_model(steps@));
    }
    r
}

/// A copy of a list of crease records.
pub fn clone_creases(list: &Vec<StepCreases>) -> (r: Vec<StepCreases>)
    ensures
        creases_model(r@) == creases_model(list@),
{
    let mut r: Vec<StepCreases> = Vec::new();
    let mut i: usize = 0;
    while i < list.len()
        invariant
            i <= list.len(),
            r.len() == i,
            forall|j: int| 0 <= j < i ==> r@[j]@ == list@[j]@,
        decreases list.len() - i,
    {
        r.push(list[i].clone());
        i = i + 1;
    }
    proof {
        assert(creases_model(r@) =~= creases_model(list@));
    }
    r
}

/// A copy of a list of faces.
pub fn clone_faces(faces: &Vec<Face>) -> (r: Vec<Face>)
    ensures
        faces_model(r@) == faces_model(faces@),
{
    let mut r: Vec<Face> = Vec::new();
    let mut i: usize = 0;
    while i < faces.len()
        invariant
            i <= faces.len(),
            r.len() == i,
            forall|j: int| 0 <= j < i ==> r@[j]@ == faces@[j]@,
        decreases faces.len() - i,
    {
        r.push(faces[i].clone());
        i = i + 1;
    }
    proof {
        assert(faces_model(r@) =~= faces_model(faces@));
    }
    r
}

impl Clone for Document {
    fn clone(&self) -> (r: Self)
        ensures
            r@ == self@,
    {
        Document {
            paper: self.paper,
            cp: self.cp.clone(),
            display: self.display,
            sequence: clone_steps(&self.sequence),
        }
    }
}

// ---------------------------------------------------------------------------
// Comparisons
// ---------------------------------------------------------------------------
/// Whether two lists of vertices are equal.
pub fn same_vertices(a: &Vec<Vertex>, b: &Vec<Vertex>) -> (r: bool)
    ensures
        r == (a@ == b@),
{
    if a.len() != b.len() {
        return false;
    }
    let mut i: usize = 0;
    while i < a.len()
        invariant
            i <= a.len(),
            a.len() == b.len(),
            forall|j: int| 0 <= j < i ==> a@[j] == b@[j],
        decreases a.len() - i,
    {
        if a[i] != b[i] {
            return false;
        }
        i = i + 1;
    }
    proof {
        assert(a@ =~= b@);
    }
    true
}

/// Whether two lists of edges are equal.
pub fn same_edges(a: &Vec<Edge>, b: &Vec<Edge>) -> (r: bool)
    ensures
        r == (a@ == b@),
{
    if a.len() != b.len() {
        return false;
    }
    let mut i: usize = 0;
    while i < a.len()
        invariant
            i <= a.len(),
            a.len() == b.len(),
            forall|j: int| 0 <= j < i ==> a@[j] == b@[j],
        decreases a.len() - i,
    {
        if a[i] != b[i] {
            return false;
        }
        i = i + 1;
    }
    proof {
        assert(a@ =~= b@);
    }
    true
}

/// Whether two lists of driver lines are equal.
pub fn same_drivers(a: &Vec<DriverLine>, b: &Vec<DriverLine>) -> (r: bool)
    ensures
        r == (a@ == b@),
{
    if a.len() != b.len() {
        return false;
    }
    let mut i: usize = 0;
    while i < a.len()
        invariant
            i <= a.len(),
            a.len() == b.len(),
            forall|j: int| 0 <= j < i ==> a@[j] == b@[j],
        decreases a.len() - i,
    {
        if a[i] != b[i] {
            return false;
        }
        i = i + 1;
    }
    proof {
        assert(a@ =~= b@);
    }
    true
}

/// Whether two lists of crease lines are equal.
pub fn same_lines(a: &Vec<CreaseLine>, b: &Vec<CreaseLine>) -> (r: bool)
    ensures
        r == (a@ == b@),
{
    if a.len() != b.len() {
        return false;
    }
    let mut i: usize = 0;
    while i < a.len()
        invariant
            i <= a.len(),
            a.len() == b.len(),
            forall|j: int| 0 <= j < i ==> a@[j] == b@[j],
        decreases a.len() - i,
    {
        if a[i] != b[i] {
            return false;
        }
        i = i + 1;
    }
    proof {
        assert(a@ =~= b@);
    }
    true
}

/// Whether two lists of identifiers are equal.
pub fn same_ids(a: &Vec<u32>, b: &Vec<u32>) -> (r: bool)
    ensures
        r == (a@ == b@),
{
    if a.len() != b.len() {
        return false;
    }
    let mut i: usize = 0;
    while i < a.len()
        invariant
            i <= a.len(),
            a.len() == b.len(),
            forall|j: int| 0 <= j < i ==> a@[j] == b@[j],
        decreases a.len() - i,
    {
        if a[i] != b[i] {
            return false;
        }
        i = i + 1;
    }
    proof {
        assert(a@ =~= b@);
    }
    true
}

/// Whether two crease patterns are equal.
pub fn same_crease_pattern(a: &CreasePattern, b: &CreasePattern) -> (r: bool)
    ensures
        r == (a@ == b@),
{
    a.next_vertex_id == b.next_vertex_id && a.next_edge_id == b.next_edge_id && same_vertices(
        &a.vertices,
        &b.vertices,
    ) && same_edges(&a.edges, &b.edges)
}

/// Whether two fold steps are equal.
pub fn same_step(a: &FoldStep, b: &FoldStep) -> (r: bool)
    ensures
        r == (a@ == b@),
{
    a.id == b.id && a.kind == b.kind && same_drivers(&a.drivers, &b.drivers) && a.note == b.note
        && a.extra == b.extra
}

/// Whether two fold sequences are equal.
pub fn same_steps(a: &Vec<FoldStep>, b: &Vec<FoldStep>) -> (r: bool)
    ensures
        r == (steps_model(a@) == steps_model(b@)),
{
    if a.len() != b.len() {
        proof {
            assert(steps_model(a@).len() != steps_model(b@).len());
        }
        return false;
    }
    let mut i: usize = 0;
    while i < a.len()
        invariant
            i <= a.len(),
            a.len() == b.len(),
            forall|j: int| 0 <= j < i ==> a@[j]@ == b@[j]@,
        decreases a.len() - i,
    {
        if !same_step(&a[i], &b[i]) {
            proof {
                assert(steps_model(a@)[i as int] != steps_model(b@)[i as int]);
            }
            return false;
        }
        i = i + 1;
    }
    proof {
        assert(steps_model(a@) =~= steps_model(b@));
    }
    true
}

/// Whether two documents are equal.
pub fn same_document(a: &Document, b: &Document) -> (r: bool)
    ensures
        r == (a@ == b@),
{
    a.paper == b.paper && a.display == b.display && same_crease_pattern(&a.cp, &b.cp)
        && same_steps(&a.sequence, &b.sequence)
}

/// Whether two crease records are equal.
pub fn same_step_creases(a: &StepCreases, b: &StepCreases) -> (r: bool)
    ensures
        r == (a@ == b@),
{
    a.step == b.step && same_lines(&a.lines, &b.lines)
}

/// Whether two lists of crease records are equal.
pub fn same_creases(a: &Vec<StepCreases>, b: &Vec<StepCreases>) -> (r: bool)
    ensures
        r == (creases_model(a@) == creases_model(b@)),
{
    if a.len() != b.len() {
        proof {
            assert(creases_model(a@).len() != creases_model(b@).len());
        }
        return false;
    }
    let mut i: usize = 0;
    while i < a.len()
        invariant
            i <= a.len(),
            a.len() == b.len(),
            forall|j: int| 0 <= j < i ==> a@[j]@ == b@[j]@,
        decreases a.len() - i,
    {
        if !same_step_creases(&a[i], &b[i]) {
            proof {
                assert(creases_model(a@)[i as int] != creases_model(b@)[i as int]);
            }
            return false;
        }
        i = i + 1;
    }
    proof {
        assert(creases_model(a@) =~= creases_model(b@));
    }
    true
}

} // verus!

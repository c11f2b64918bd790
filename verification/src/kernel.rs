//! The geometric kernel the store relies on.
//!
//! Building a fresh document for a sheet, inserting, removing and moving crease-pattern
//! elements, deriving faces and validating the crease pattern are geometric computations
//! on real coordinates. The store calls them through this trait. Each computation is a
//! function of its arguments alone, and the trait names its result with a spec function
//! (`doc_for`, `faces_of`, ...): every method returns exactly the named value, so the
//! store's contracts can say what is handed to the kernel and what is kept of its answer.
//!
//! The names carry a placeholder body, so that a kernel written in plain Rust need not
//! define them; the body is closed and a kernel may override it, so for a generic kernel
//! Verus knows nothing of a name beyond what the methods' `ensures` say of it. The same
//! holds of the names of the other kernel traits.
use vstd::prelude::*;

use crate::edits::texts;
use crate::model::{
    faces_model, CreasePattern, CreasePatternModel, Document, DocumentModel, EdgeId, EdgeKind,
    Face, FaceModel, Paper, VertexId,
};

verus! {

/// A point of the crease pattern (bit patterns of its coordinates).
#[derive(Clone, Copy, Debug, PartialEq, Eq, Structural)]
pub struct Point {
    pub x_bits: u64,
    pub y_bits: u64,
}

/// Geometric computations on crease patterns.
pub trait CreaseKernel {
    /// The new work the kernel builds for `paper`.
    closed spec fn doc_for(&self, paper: Paper) -> DocumentModel {
        vstd::pervasive::arbitrary()
    }

    /// The faces the kernel derives from a crease pattern.
    closed spec fn faces_of(&self, cp: CreasePatternModel) -> Seq<FaceModel> {
        vstd::pervasive::arbitrary()
    }

    /// The validation warnings the kernel reports for a crease pattern.
    closed spec fn validation_of(&self, cp: CreasePatternModel) -> Seq<Seq<char>> {
        vstd::pervasive::arbitrary()
    }

    /// The interior vertices of a crease pattern that the kernel finds not flat-foldable.
    closed spec fn violations_of(&self, cp: CreasePatternModel) -> Seq<VertexId> {
        vstd::pervasive::arbitrary()
    }

    /// The crease pattern after the kernel inserts the segment `a`-`b` of the given kind.
    closed spec fn with_segment(
        &self,
        cp: CreasePatternModel,
        a: Point,
        b: Point,
        kind: EdgeKind,
    ) -> CreasePatternModel {
        vstd::pervasive::arbitrary()
    }

    /// The crease pattern after the kernel removes the given edges.
    closed spec fn without_edges(&self, cp: CreasePatternModel, ids: Seq<EdgeId>) -> CreasePatternModel {
        vstd::pervasive::arbitrary()
    }

    /// The crease pattern after the kernel moves vertex `id` to `to`.
    closed spec fn with_vertex_moved(
        &self,
        cp: CreasePatternModel,
        id: VertexId,
        to: Point,
    ) -> CreasePatternModel {
        vstd::pervasive::arbitrary()
    }

    /// A new work on `paper`: a crease pattern holding only the sheet's border, the
    /// default display settings and no step.
    fn new_document(&self, paper: Paper) -> (r: Document)
        ensures
            r@ == self.doc_for(paper),
    ;

    /// The faces the crease pattern divides the sheet into.
    fn extract_faces(&self, cp: &CreasePattern) -> (r: Vec<Face>)
        ensures
            faces_model(r@) == self.faces_of(cp@),
    ;

    /// Warnings about a broken crease pattern (crossings, dangling references...).
    fn validate(&self, cp: &CreasePattern) -> (r: Vec<String>)
        ensures
            texts(r@) == self.validation_of(cp@),
    ;

    /// The interior vertices where the pattern cannot fold flat.
    fn local_violations(&self, cp: &CreasePattern) -> (r: Vec<VertexId>)
        ensures
            r@ == self.violations_of(cp@),
    ;

    /// Inserts the segment from `a` to `b` with the given kind, splitting what it crosses.
    fn insert_segment(&self, cp: &mut CreasePattern, a: Point, b: Point, kind: EdgeKind)
        ensures
            final(cp)@ == self.with_segment(old(cp)@, a, b, kind),
    ;

    /// Removes the given edges.
    fn remove_edges(&self, cp: &mut CreasePattern, ids: &Vec<EdgeId>)
        ensures
            final(cp)@ == self.without_edges(old(cp)@, ids@),
    ;

    /// Moves vertex `id` to `to`.
    fn move_vertex(&self, cp: &mut CreasePattern, id: VertexId, to: Point)
        ensures
            final(cp)@ == self.with_vertex_moved(old(cp)@, id, to),
    ;
}

} // verus!

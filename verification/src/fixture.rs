//! Crease patterns of unit squares used to exercise the fold checks, with their
//! coordinates as the bit patterns of binary64 values.
use vstd::prelude::*;

use crate::model::{CreasePattern, CreasePatternModel, Edge, EdgeId, EdgeKind, Vertex, VertexId};

verus! {

/// Edges that join two distinct vertices below `nv`, with strictly increasing
/// identifiers.
pub open spec fn edges_in_order(es: Seq<Edge>, nv: nat) -> bool {
    &&& forall|i: int|
        0 <= i < es.len() ==> (#[trigger] es[i]).v0 < nv && es[i].v1 < nv && es[i].v0 != es[i].v1
    &&& forall|i: int, j: int| 0 <= i < j < es.len() ==> #[trigger] es[i].id < #[trigger] es[j].id
}

/// Vertices numbered by their position.
pub open spec fn vertices_in_order(vs: Seq<Vertex>) -> bool {
    forall|i: int| 0 <= i < vs.len() ==> (#[trigger] vs[i]).id == i
}

/// A crease pattern whose vertices are numbered by position, whose edges join existing
/// distinct vertices in increasing order of identifier, and whose next identifiers are
/// free.
pub open spec fn numbered_pattern(cp: CreasePatternModel) -> bool {
    &&& vertices_in_order(cp.vertices)
    &&& edges_in_order(cp.edges, cp.vertices.len())
    &&& cp.next_vertex_id == cp.vertices.len()
    &&& forall|i: int| 0 <= i < cp.edges.len() ==> (#[trigger] cp.edges[i]).id < cp.next_edge_id
}

/// The vertex `id` at the binary64 coordinates with bit patterns `x_bits`, `y_bits`.
pub fn vertex(id: VertexId, x_bits: u64, y_bits: u64) -> (r: Vertex)
    ensures
        r == (Vertex { id, x_bits, y_bits }),
{
    Vertex { id, x_bits, y_bits }
}

/// The edge `id` of kind `kind` from vertex `v0` to vertex `v1`.
pub fn edge(id: EdgeId, v0: VertexId, v1: VertexId, kind: EdgeKind) -> (r: Edge)
    ensures
        r == (Edge { id, v0, v1, kind }),
{
    Edge { id, v0, v1, kind }
}

fn push_vertex(vs: &mut Vec<Vertex>, x_bits: u64, y_bits: u64)
    requires
        old(vs)@.len() < 0xffff_ffff,
        vertices_in_order(old(vs)@),
    ensures
        final(vs)@ == old(vs)@.push(Vertex { id: old(vs)@.len() as u32, x_bits, y_bits }),
        vertices_in_order(final(vs)@),
{
    let id = vs.len() as u32;
    vs.push(vertex(id, x_bits, y_bits));
}

fn push_edge(es: &mut Vec<Edge>, nv: u32, id: EdgeId, v0: VertexId, v1: VertexId, kind: EdgeKind)
    requires
        v0 < nv,
        v1 < nv,
        v0 != v1,
        old(es)@.len() > 0 ==> old(es)@.last().id < id,
        edges_in_order(old(es)@, nv as nat),
    ensures
        final(es)@ == old(es)@.push(Edge { id, v0, v1, kind }),
        final(es)@.last().id == id,
        edges_in_order(final(es)@, nv as nat),
{
    proof {
        assert forall|i: int| 0 <= i < old(es)@.len() implies (#[trigger] old(es)@[i]).id < id by {
            if i < old(es)@.len() - 1 {
                assert(old(es)@[i].id < old(es)@[old(es)@.len() - 1].id);
            }
        }
    }
    es.push(edge(id, v0, v1, kind));
}

/// The vertices of [`split_square`], in order.
pub open spec fn split_square_vertices() -> Seq<Vertex> {
    seq![
        Vertex { id: 0u32, x_bits: 0u64, y_bits: 0u64 },
        Vertex { id: 1u32, x_bits: 0x3fe0000000000000u64, y_bits: 0u64 },
        Vertex { id: 2u32, x_bits: 0x3ff0000000000000u64, y_bits: 0u64 },
        Vertex { id: 3u32, x_bits: 0x3ff0000000000000u64, y_bits: 0x3ff0000000000000u64 },
        Vertex { id: 4u32, x_bits: 0x3fe0000000000000u64, y_bits: 0x3ff0000000000000u64 },
        Vertex { id: 5u32, x_bits: 0u64, y_bits: 0x3ff0000000000000u64 }
    ]
}

/// The edges of [`split_square`], in order.
pub open spec fn split_square_edges() -> Seq<Edge> {
    seq![
        Edge { id: 0u32, v0: 0u32, v1: 1u32, kind: EdgeKind::Border },
        Edge { id: 1u32, v0: 1u32, v1: 2u32, kind: EdgeKind::Border },
        Edge { id: 2u32, v0: 2u32, v1: 3u32, kind: EdgeKind::Border },
        Edge { id: 3u32, v0: 3u32, v1: 4u32, kind: EdgeKind::Border },
        Edge { id: 4u32, v0: 4u32, v1: 5u32, kind: EdgeKind::Border },
        Edge { id: 5u32, v0: 5u32, v1: 0u32, kind: EdgeKind::Border },
        Edge { id: 6u32, v0: 1u32, v1: 4u32, kind: EdgeKind::Mountain }
    ]
}

/// The vertices of [`flat_foldable_kome`], in order.
pub open spec fn flat_foldable_kome_vertices() -> Seq<Vertex> {
    seq![
        Vertex { id: 0u32, x_bits: 0u64, y_bits: 0u64 },
        Vertex { id: 1u32, x_bits: 0x3fe0000000000000u64, y_bits: 0u64 },
        Vertex { id: 2u32, x_bits: 0x3ff0000000000000u64, y_bits: 0u64 },
        Vertex { id: 3u32, x_bits: 0x3ff0000000000000u64, y_bits: 0x3fe0000000000000u64 },
        Vertex { id: 4u32, x_bits: 0x3ff0000000000000u64, y_bits: 0x3ff0000000000000u64 },
        Vertex { id: 5u32, x_bits: 0x3fe0000000000000u64, y_bits: 0x3ff0000000000000u64 },
        Vertex { id: 6u32, x_bits: 0u64, y_bits: 0x3ff0000000000000u64 },
        Vertex { id: 7u32, x_bits: 0u64, y_bits: 0x3fe0000000000000u64 },
        Vertex { id: 8u32, x_bits: 0x3fe0000000000000u64, y_bits: 0x3fe0000000000000u64 }
    ]
}

/// The edges of [`flat_foldable_kome`], in order.
pub open spec fn flat_foldable_kome_edges() -> Seq<Edge> {
    seq![
        Edge { id: 0u32, v0: 0u32, v1: 1u32, kind: EdgeKind::Border },
        Edge { id: 1u32, v0: 1u32, v1: 2u32, kind: EdgeKind::Border },
        Edge { id: 2u32, v0: 2u32, v1: 3u32, kind: EdgeKind::Border },
        Edge { id: 3u32, v0: 3u32, v1: 4u32, kind: EdgeKind::Border },
        Edge { id: 4u32, v0: 4u32, v1: 5u32, kind: EdgeKind::Border },
        Edge { id: 5u32, v0: 5u32, v1: 6u32, kind: EdgeKind::Border },
        Edge { id: 6u32, v0: 6u32, v1: 7u32, kind: EdgeKind::Border },
        Edge { id: 7u32, v0: 7u32, v1: 0u32, kind: EdgeKind::Border },
        Edge { id: 8u32, v0: 8u32, v1: 0u32, kind: EdgeKind::Valley },
        Edge { id: 9u32, v0: 8u32, v1: 1u32, kind: EdgeKind::Valley },
        Edge { id: 10u32, v0: 8u32, v1: 2u32, kind: EdgeKind::Valley },
        Edge { id: 11u32, v0: 8u32, v1: 3u32, kind: EdgeKind::Mountain },
        Edge { id: 12u32, v0: 8u32, v1: 4u32, kind: EdgeKind::Valley },
        Edge { id: 13u32, v0: 8u32, v1: 5u32, kind: EdgeKind::Mountain },
        Edge { id: 14u32, v0: 8u32, v1: 6u32, kind: EdgeKind::Valley },
        Edge { id: 15u32, v0: 8u32, v1: 7u32, kind: EdgeKind::Mountain }
    ]
}

/// The vertices of [`angle_surface_cp`], in order.
pub open spec fn angle_surface_cp_vertices() -> Seq<Vertex> {
    seq![
        Vertex { id: 0u32, x_bits: 0u64, y_bits: 0u64 },
        Vertex { id: 1u32, x_bits: 0x3ff0000000000000u64, y_bits: 0u64 },
        Vertex { id: 2u32, x_bits: 0x3ff0000000000000u64, y_bits: 0x3ff0000000000000u64 },
        Vertex { id: 3u32, x_bits: 0u64, y_bits: 0x3ff0000000000000u64 },
        Vertex { id: 4u32, x_bits: 0u64, y_bits: 0x3fe0000000000000u64 },
        Vertex { id: 5u32, x_bits: 0x3ff0000000000000u64, y_bits: 0x3fe0000000000000u64 },
        Vertex { id: 6u32, x_bits: 0x3fe0000000000000u64, y_bits: 0x3ff0000000000000u64 },
        Vertex { id: 7u32, x_bits: 0x3fe0000000000000u64, y_bits: 0u64 },
        Vertex { id: 8u32, x_bits: 0x3fe0000000000000u64, y_bits: 0x3fe0000000000000u64 },
        Vertex { id: 9u32, x_bits: 0x3fe95f619980c434u64, y_bits: 0x3fe0000000000000u64 },
        Vertex { id: 10u32, x_bits: 0x3fe0000000000000u64, y_bits: 0x3fca827999fcef32u64 },
        Vertex { id: 11u32, x_bits: 0x3fd0000000000000u64, y_bits: 0x3fe0000000000000u64 },
        Vertex { id: 12u32, x_bits: 0x3fe0000000000000u64, y_bits: 0x3fe95f619980c434u64 },
        Vertex { id: 13u32, x_bits: 0x3fca827999fcef32u64, y_bits: 0x3fe0000000000000u64 }
    ]
}

/// The edges of [`angle_surface_cp`], in order.
pub open spec fn angle_surface_cp_edges() -> Seq<Edge> {
    seq![
        Edge { id: 4u32, v0: 3u32, v1: 4u32, kind: EdgeKind::Border },
        Edge { id: 5u32, v0: 4u32, v1: 0u32, kind: EdgeKind::Border },
        Edge { id: 6u32, v0: 1u32, v1: 5u32, kind: EdgeKind::Border },
        Edge { id: 7u32, v0: 5u32, v1: 2u32, kind: EdgeKind::Border },
        Edge { id: 9u32, v0: 2u32, v1: 6u32, kind: EdgeKind::Border },
        Edge { id: 10u32, v0: 6u32, v1: 3u32, kind: EdgeKind::Border },
        Edge { id: 11u32, v0: 0u32, v1: 7u32, kind: EdgeKind::Border },
        Edge { id: 12u32, v0: 7u32, v1: 1u32, kind: EdgeKind::Border },
        Edge { id: 17u32, v0: 0u32, v1: 8u32, kind: EdgeKind::Valley },
        Edge { id: 18u32, v0: 8u32, v1: 2u32, kind: EdgeKind::Valley },
        Edge { id: 19u32, v0: 8u32, v1: 9u32, kind: EdgeKind::Mountain },
        Edge { id: 20u32, v0: 9u32, v1: 5u32, kind: EdgeKind::Mountain },
        Edge { id: 21u32, v0: 2u32, v1: 9u32, kind: EdgeKind::Mountain },
        Edge { id: 22u32, v0: 9u32, v1: 1u32, kind: EdgeKind::Mountain },
        Edge { id: 23u32, v0: 8u32, v1: 10u32, kind: EdgeKind::Mountain },
        Edge { id: 24u32, v0: 10u32, v1: 7u32, kind: EdgeKind::Mountain },
        Edge { id: 25u32, v0: 0u32, v1: 10u32, kind: EdgeKind::Mountain },
        Edge { id: 26u32, v0: 10u32, v1: 1u32, kind: EdgeKind::Mountain },
        Edge { id: 28u32, v0: 11u32, v1: 8u32, kind: EdgeKind::Mountain },
        Edge { id: 31u32, v0: 6u32, v1: 12u32, kind: EdgeKind::Mountain },
        Edge { id: 32u32, v0: 12u32, v1: 8u32, kind: EdgeKind::Mountain },
        Edge { id: 33u32, v0: 2u32, v1: 12u32, kind: EdgeKind::Mountain },
        Edge { id: 34u32, v0: 12u32, v1: 3u32, kind: EdgeKind::Mountain },
        Edge { id: 37u32, v0: 4u32, v1: 13u32, kind: EdgeKind::Mountain },
        Edge { id: 38u32, v0: 13u32, v1: 11u32, kind: EdgeKind::Mountain },
        Edge { id: 39u32, v0: 0u32, v1: 13u32, kind: EdgeKind::Mountain },
        Edge { id: 40u32, v0: 13u32, v1: 3u32, kind: EdgeKind::Mountain },
        Edge { id: 42u32, v0: 13u32, v1: 12u32, kind: EdgeKind::Valley },
        Edge { id: 43u32, v0: 10u32, v1: 9u32, kind: EdgeKind::Valley }
    ]
}

/// The vertices of [`zero_back_user_cp`], in order.
pub open spec fn zero_back_user_cp_vertices() -> Seq<Vertex> {
    seq![
        Vertex { id: 0u32, x_bits: 0u64, y_bits: 0u64 },
        Vertex { id: 1u32, x_bits: 0x3ff0000000000000u64, y_bits: 0u64 },
        Vertex { id: 2u32, x_bits: 0x3ff0000000000000u64, y_bits: 0x3ff0000000000000u64 },
        Vertex { id: 3u32, x_bits: 0u64, y_bits: 0x3ff0000000000000u64 },
        Vertex { id: 4u32, x_bits: 0u64, y_bits: 0x3fe0000000000000u64 },
        Vertex { id: 5u32, x_bits: 0x3ff0000000000000u64, y_bits: 0x3fe0000000000000u64 },
        Vertex { id: 6u32, x_bits: 0x3fe0000000000000u64, y_bits: 0x3ff0000000000000u64 },
        Vertex { id: 7u32, x_bits: 0x3fe0000000000000u64, y_bits: 0u64 },
        Vertex { id: 8u32, x_bits: 0x3fe0000000000000u64, y_bits: 0x3fe0000000000000u64 },
        Vertex { id: 9u32, x_bits: 0x3fe95f619980c434u64, y_bits: 0x3fe0000000000000u64 },
        Vertex { id: 10u32, x_bits: 0x3fe0000000000000u64, y_bits: 0x3fca827999fcef32u64 },
        Vertex { id: 11u32, x_bits: 0x3fca827999fcef32u64, y_bits: 0x3fe0000000000000u64 },
        Vertex { id: 12u32, x_bits: 0x3fe0000000000000u64, y_bits: 0x3fe95f619980c434u64 }
    ]
}

/// The edges of [`zero_back_user_cp`], in order.
pub open spec fn zero_back_user_cp_edges() -> Seq<Edge> {
    seq![
        Edge { id: 4u32, v0: 3u32, v1: 4u32, kind: EdgeKind::Border },
        Edge { id: 5u32, v0: 4u32, v1: 0u32, kind: EdgeKind::Border },
        Edge { id: 6u32, v0: 1u32, v1: 5u32, kind: EdgeKind::Border },
        Edge { id: 7u32, v0: 5u32, v1: 2u32, kind: EdgeKind::Border },
        Edge { id: 9u32, v0: 2u32, v1: 6u32, kind: EdgeKind::Border },
        Edge { id: 10u32, v0: 6u32, v1: 3u32, kind: EdgeKind::Border },
        Edge { id: 11u32, v0: 0u32, v1: 7u32, kind: EdgeKind::Border },
        Edge { id: 12u32, v0: 7u32, v1: 1u32, kind: EdgeKind::Border },
        Edge { id: 17u32, v0: 0u32, v1: 8u32, kind: EdgeKind::Valley },
        Edge { id: 18u32, v0: 8u32, v1: 2u32, kind: EdgeKind::Valley },
        Edge { id: 19u32, v0: 8u32, v1: 9u32, kind: EdgeKind::Mountain },
        Edge { id: 20u32, v0: 9u32, v1: 5u32, kind: EdgeKind::Mountain },
        Edge { id: 21u32, v0: 2u32, v1: 9u32, kind: EdgeKind::Mountain },
        Edge { id: 22u32, v0: 9u32, v1: 1u32, kind: EdgeKind::Mountain },
        Edge { id: 23u32, v0: 8u32, v1: 10u32, kind: EdgeKind::Mountain },
        Edge { id: 24u32, v0: 10u32, v1: 7u32, kind: EdgeKind::Mountain },
        Edge { id: 25u32, v0: 0u32, v1: 10u32, kind: EdgeKind::Mountain },
        Edge { id: 26u32, v0: 10u32, v1: 1u32, kind: EdgeKind::Mountain },
        Edge { id: 27u32, v0: 4u32, v1: 11u32, kind: EdgeKind::Mountain },
        Edge { id: 28u32, v0: 11u32, v1: 8u32, kind: EdgeKind::Mountain },
        Edge { id: 29u32, v0: 0u32, v1: 11u32, kind: EdgeKind::Mountain },
        Edge { id: 30u32, v0: 11u32, v1: 3u32, kind: EdgeKind::Mountain },
        Edge { id: 31u32, v0: 6u32, v1: 12u32, kind: EdgeKind::Mountain },
        Edge { id: 32u32, v0: 12u32, v1: 8u32, kind: EdgeKind::Mountain },
        Edge { id: 33u32, v0: 2u32, v1: 12u32, kind: EdgeKind::Mountain },
        Edge { id: 34u32, v0: 12u32, v1: 3u32, kind: EdgeKind::Mountain },
        Edge { id: 35u32, v0: 11u32, v1: 12u32, kind: EdgeKind::Valley },
        Edge { id: 36u32, v0: 9u32, v1: 10u32, kind: EdgeKind::Valley }
    ]
}

/// The vertices of [`live_frame_cp`], in order.
pub open spec fn live_frame_cp_vertices() -> Seq<Vertex> {
    seq![
        Vertex { id: 0u32, x_bits: 0u64, y_bits: 0u64 },
        Vertex { id: 1u32, x_bits: 0x3ff0000000000000u64, y_bits: 0u64 },
        Vertex { id: 2u32, x_bits: 0x3ff0000000000000u64, y_bits: 0x3ff0000000000000u64 },
        Vertex { id: 3u32, x_bits: 0u64, y_bits: 0x3ff0000000000000u64 },
        Vertex { id: 4u32, x_bits: 0x3ff0000000000000u64, y_bits: 0x3fe0000000000000u64 },
        Vertex { id: 5u32, x_bits: 0u64, y_bits: 0x3fe0000000000000u64 },
        Vertex { id: 6u32, x_bits: 0x3fe0000000000000u64, y_bits: 0x3ff0000000000000u64 },
        Vertex { id: 7u32, x_bits: 0x3fe0000000000000u64, y_bits: 0u64 },
        Vertex { id: 8u32, x_bits: 0x3fe0000000000000u64, y_bits: 0x3fe0000000000000u64 },
        Vertex { id: 9u32, x_bits: 0x3fe0000000000000u64, y_bits: 0x3fe95f619980c434u64 },
        Vertex { id: 10u32, x_bits: 0x3fe95f619980c434u64, y_bits: 0x3fe0000000000000u64 },
        Vertex { id: 11u32, x_bits: 0x3fe0000000000000u64, y_bits: 0x3fca827999fcef32u64 },
        Vertex { id: 12u32, x_bits: 0x3fca827999fcef32u64, y_bits: 0x3fe0000000000000u64 }
    ]
}

/// The edges of [`live_frame_cp`], in order.
pub open spec fn live_frame_cp_edges() -> Seq<Edge> {
    seq![
        Edge { id: 4u32, v0: 1u32, v1: 4u32, kind: EdgeKind::Border },
        Edge { id: 5u32, v0: 4u32, v1: 2u32, kind: EdgeKind::Border },
        Edge { id: 6u32, v0: 3u32, v1: 5u32, kind: EdgeKind::Border },
        Edge { id: 7u32, v0: 5u32, v1: 0u32, kind: EdgeKind::Border },
        Edge { id: 9u32, v0: 2u32, v1: 6u32, kind: EdgeKind::Border },
        Edge { id: 10u32, v0: 6u32, v1: 3u32, kind: EdgeKind::Border },
        Edge { id: 11u32, v0: 0u32, v1: 7u32, kind: EdgeKind::Border },
        Edge { id: 12u32, v0: 7u32, v1: 1u32, kind: EdgeKind::Border },
        Edge { id: 17u32, v0: 0u32, v1: 8u32, kind: EdgeKind::Valley },
        Edge { id: 18u32, v0: 8u32, v1: 2u32, kind: EdgeKind::Valley },
        Edge { id: 19u32, v0: 6u32, v1: 9u32, kind: EdgeKind::Mountain },
        Edge { id: 20u32, v0: 9u32, v1: 8u32, kind: EdgeKind::Mountain },
        Edge { id: 21u32, v0: 2u32, v1: 9u32, kind: EdgeKind::Mountain },
        Edge { id: 22u32, v0: 4u32, v1: 10u32, kind: EdgeKind::Mountain },
        Edge { id: 23u32, v0: 10u32, v1: 8u32, kind: EdgeKind::Mountain },
        Edge { id: 24u32, v0: 2u32, v1: 10u32, kind: EdgeKind::Mountain },
        Edge { id: 25u32, v0: 10u32, v1: 1u32, kind: EdgeKind::Mountain },
        Edge { id: 26u32, v0: 8u32, v1: 11u32, kind: EdgeKind::Mountain },
        Edge { id: 27u32, v0: 11u32, v1: 7u32, kind: EdgeKind::Mountain },
        Edge { id: 28u32, v0: 0u32, v1: 11u32, kind: EdgeKind::Mountain },
        Edge { id: 29u32, v0: 11u32, v1: 1u32, kind: EdgeKind::Mountain },
        Edge { id: 30u32, v0: 8u32, v1: 12u32, kind: EdgeKind::Mountain },
        Edge { id: 31u32, v0: 12u32, v1: 5u32, kind: EdgeKind::Mountain },
        Edge { id: 32u32, v0: 0u32, v1: 12u32, kind: EdgeKind::Mountain },
        Edge { id: 33u32, v0: 12u32, v1: 3u32, kind: EdgeKind::Mountain },
        Edge { id: 34u32, v0: 3u32, v1: 9u32, kind: EdgeKind::Mountain },
        Edge { id: 35u32, v0: 12u32, v1: 9u32, kind: EdgeKind::Valley },
        Edge { id: 36u32, v0: 10u32, v1: 11u32, kind: EdgeKind::Valley }
    ]
}

/// A unit square split down the middle by one mountain line.
pub fn split_square() -> (r: CreasePattern)
    ensures
        numbered_pattern(r@),
        r@.vertices.len() == 6,
        r@.edges.len() == 7,
        r@.next_edge_id == 7,
        r@.vertices == split_square_vertices(),
        r@.edges == split_square_edges(),
{
    let mut vertices: Vec<Vertex> = Vec::new();
    push_vertex(&mut vertices, 0, 0);
    push_vertex(&mut vertices, 0x3fe0000000000000, 0);
    push_vertex(&mut vertices, 0x3ff0000000000000, 0);
    push_vertex(&mut vertices, 0x3ff0000000000000, 0x3ff0000000000000);
    push_vertex(&mut vertices, 0x3fe0000000000000, 0x3ff0000000000000);
    push_vertex(&mut vertices, 0, 0x3ff0000000000000);
    let mut edges: Vec<Edge> = Vec::new();
    push_edge(&mut edges, 6, 0, 0, 1, EdgeKind::Border);
    push_edge(&mut edges, 6, 1, 1, 2, EdgeKind::Border);
    push_edge(&mut edges, 6, 2, 2, 3, EdgeKind::Border);
    push_edge(&mut edges, 6, 3, 3, 4, EdgeKind::Border);
    push_edge(&mut edges, 6, 4, 4, 5, EdgeKind::Border);
    push_edge(&mut edges, 6, 5, 5, 0, EdgeKind::Border);
    push_edge(&mut edges, 6, 6, 1, 4, EdgeKind::Mountain);
    proof {
        assert(vertices@ =~= split_square_vertices());
        assert(edges@ =~= split_square_edges());
    }
    CreasePattern { vertices, edges, next_vertex_id: 6, next_edge_id: 7 }
}

/// A unit square with one interior vertex of eight lines that folds flat.
#[verifier::rlimit(30)]
pub fn flat_foldable_kome() -> (r: CreasePattern)
    ensures
        numbered_pattern(r@),
        r@.vertices.len() == 9,
        r@.edges.len() == 16,
        r@.next_edge_id == 16,
        r@.vertices == flat_foldable_kome_vertices(),
        r@.edges == flat_foldable_kome_edges(),
{
    let mut vertices: Vec<Vertex> = Vec::new();
    push_vertex(&mut vertices, 0, 0);
    push_vertex(&mut vertices, 0x3fe0000000000000, 0);
    push_vertex(&mut vertices, 0x3ff0000000000000, 0);
    push_vertex(&mut vertices, 0x3ff0000000000000, 0x3fe0000000000000);
    push_vertex(&mut vertices, 0x3ff0000000000000, 0x3ff0000000000000);
    push_vertex(&mut vertices, 0x3fe0000000000000, 0x3ff0000000000000);
    push_vertex(&mut vertices, 0, 0x3ff0000000000000);
    push_vertex(&mut vertices, 0, 0x3fe0000000000000);
    push_vertex(&mut vertices, 0x3fe0000000000000, 0x3fe0000000000000);
    let mut edges: Vec<Edge> = Vec::new();
    push_edge(&mut edges, 9, 0, 0, 1, EdgeKind::Border);
    push_edge(&mut edges, 9, 1, 1, 2, EdgeKind::Border);
    push_edge(&mut edges, 9, 2, 2, 3, EdgeKind::Border);
    push_edge(&mut edges, 9, 3, 3, 4, EdgeKind::Border);
    push_edge(&mut edges, 9, 4, 4, 5, EdgeKind::Border);
    push_edge(&mut edges, 9, 5, 5, 6, EdgeKind::Border);
    push_edge(&mut edges, 9, 6, 6, 7, EdgeKind::Border);
    push_edge(&mut edges, 9, 7, 7, 0, EdgeKind::Border);
    push_edge(&mut edges, 9, 8, 8, 0, EdgeKind::Valley);
    push_edge(&mut edges, 9, 9, 8, 1, EdgeKind::Valley);
    push_edge(&mut edges, 9, 10, 8, 2, EdgeKind::Valley);
    push_edge(&mut edges, 9, 11, 8, 3, EdgeKind::Mountain);
    push_edge(&mut edges, 9, 12, 8, 4, EdgeKind::Valley);
    push_edge(&mut edges, 9, 13, 8, 5, EdgeKind::Mountain);
    push_edge(&mut edges, 9, 14, 8, 6, EdgeKind::Valley);
    push_edge(&mut edges, 9, 15, 8, 7, EdgeKind::Mountain);
    proof {
        assert(vertices@ =~= flat_foldable_kome_vertices());
        assert(edges@ =~= flat_foldable_kome_edges());
    }
    CreasePattern { vertices, edges, next_vertex_id: 9, next_edge_id: 16 }
}

/// A unit square folded into a base with one narrow flap: fourteen vertices.
#[verifier::rlimit(60)]
pub fn angle_surface_cp() -> (r: CreasePattern)
    ensures
        numbered_pattern(r@),
        r@.vertices.len() == 14,
        r@.edges.len() == 29,
        r@.next_edge_id == 44,
        r@.vertices == angle_surface_cp_vertices(),
        r@.edges == angle_surface_cp_edges(),
{
    let mut vertices: Vec<Vertex> = Vec::new();
    push_vertex(&mut vertices, 0, 0);
    push_vertex(&mut vertices, 0x3ff0000000000000, 0);
    push_vertex(&mut vertices, 0x3ff0000000000000, 0x3ff0000000000000);
    push_vertex(&mut vertices, 0, 0x3ff0000000000000);
    push_vertex(&mut vertices, 0, 0x3fe0000000000000);
    push_vertex(&mut vertices, 0x3ff0000000000000, 0x3fe0000000000000);
    push_vertex(&mut vertices, 0x3fe0000000000000, 0x3ff0000000000000);
    push_vertex(&mut vertices, 0x3fe0000000000000, 0);
    push_vertex(&mut vertices, 0x3fe0000000000000, 0x3fe0000000000000);
    push_vertex(&mut vertices, 0x3fe95f619980c434, 0x3fe0000000000000);
    push_vertex(&mut vertices, 0x3fe0000000000000, 0x3fca827999fcef32);
    push_vertex(&mut vertices, 0x3fd0000000000000, 0x3fe0000000000000);
    push_vertex(&mut vertices, 0x3fe0000000000000, 0x3fe95f619980c434);
    push_vertex(&mut vertices, 0x3fca827999fcef32, 0x3fe0000000000000);
    let mut edges: Vec<Edge> = Vec::new();
    push_edge(&mut edges, 14, 4, 3, 4, EdgeKind::Border);
    push_edge(&mut edges, 14, 5, 4, 0, EdgeKind::Border);
    push_edge(&mut edges, 14, 6, 1, 5, EdgeKind::Border);
    push_edge(&mut edges, 14, 7, 5, 2, EdgeKind::Border);
    push_edge(&mut edges, 14, 9, 2, 6, EdgeKind::Border);
    push_edge(&mut edges, 14, 10, 6, 3, EdgeKind::Border);
    push_edge(&mut edges, 14, 11, 0, 7, EdgeKind::Border);
    push_edge(&mut edges, 14, 12, 7, 1, EdgeKind::Border);
    push_edge(&mut edges, 14, 17, 0, 8, EdgeKind::Valley);
    push_edge(&mut edges, 14, 18, 8, 2, EdgeKind::Valley);
    push_edge(&mut edges, 14, 19, 8, 9, EdgeKind::Mountain);
    push_edge(&mut edges, 14, 20, 9, 5, EdgeKind::Mountain);
    push_edge(&mut edges, 14, 21, 2, 9, EdgeKind::Mountain);
    push_edge(&mut edges, 14, 22, 9, 1, EdgeKind::Mountain);
    push_edge(&mut edges, 14, 23, 8, 10, EdgeKind::Mountain);
    push_edge(&mut edges, 14, 24, 10, 7, EdgeKind::Mountain);
    push_edge(&mut edges, 14, 25, 0, 10, EdgeKind::Mountain);
    push_edge(&mut edges, 14, 26, 10, 1, EdgeKind::Mountain);
    push_edge(&mut edges, 14, 28, 11, 8, EdgeKind::Mountain);
    push_edge(&mut edges, 14, 31, 6, 12, EdgeKind::Mountain);
    push_edge(&mut edges, 14, 32, 12, 8, EdgeKind::Mountain);
    push_edge(&mut edges, 14, 33, 2, 12, EdgeKind::Mountain);
    push_edge(&mut edges, 14, 34, 12, 3, EdgeKind::Mountain);
    push_edge(&mut edges, 14, 37, 4, 13, EdgeKind::Mountain);
    push_edge(&mut edges, 14, 38, 13, 11, EdgeKind::Mountain);
    push_edge(&mut edges, 14, 39, 0, 13, EdgeKind::Mountain);
    push_edge(&mut edges, 14, 40, 13, 3, EdgeKind::Mountain);
    push_edge(&mut edges, 14, 42, 13, 12, EdgeKind::Valley);
    push_edge(&mut edges, 14, 43, 10, 9, EdgeKind::Valley);
    proof {
        assert(vertices@ =~= angle_surface_cp_vertices());
        assert(edges@ =~= angle_surface_cp_edges());
    }
    CreasePattern { vertices, edges, next_vertex_id: 14, next_edge_id: 44 }
}

/// A unit square folded into a base with two narrow flaps: thirteen vertices.
#[verifier::rlimit(60)]
pub fn zero_back_user_cp() -> (r: CreasePattern)
    ensures
        numbered_pattern(r@),
        r@.vertices.len() == 13,
        r@.edges.len() == 28,
        r@.next_edge_id == 37,
        r@.vertices == zero_back_user_cp_vertices(),
        r@.edges == zero_back_user_cp_edges(),
{
    let mut vertices: Vec<Vertex> = Vec::new();
    push_vertex(&mut vertices, 0, 0);
    push_vertex(&mut vertices, 0x3ff0000000000000, 0);
    push_vertex(&mut vertices, 0x3ff0000000000000, 0x3ff0000000000000);
    push_vertex(&mut vertices, 0, 0x3ff0000000000000);
    push_vertex(&mut vertices, 0, 0x3fe0000000000000);
    push_vertex(&mut vertices, 0x3ff0000000000000, 0x3fe0000000000000);
    push_vertex(&mut vertices, 0x3fe0000000000000, 0x3ff0000000000000);
    push_vertex(&mut vertices, 0x3fe0000000000000, 0);
    push_vertex(&mut vertices, 0x3fe0000000000000, 0x3fe0000000000000);
    push_vertex(&mut vertices, 0x3fe95f619980c434, 0x3fe0000000000000);
    push_vertex(&mut vertices, 0x3fe0000000000000, 0x3fca827999fcef32);
    push_vertex(&mut vertices, 0x3fca827999fcef32, 0x3fe0000000000000);
    push_vertex(&mut vertices, 0x3fe0000000000000, 0x3fe95f619980c434);
    let mut edges: Vec<Edge> = Vec::new();
    push_edge(&mut edges, 13, 4, 3, 4, EdgeKind::Border);
    push_edge(&mut edges, 13, 5, 4, 0, EdgeKind::Border);
    push_edge(&mut edges, 13, 6, 1, 5, EdgeKind::Border);
    push_edge(&mut edges, 13, 7, 5, 2, EdgeKind::Border);
    push_edge(&mut edges, 13, 9, 2, 6, EdgeKind::Border);
    push_edge(&mut edges, 13, 10, 6, 3, EdgeKind::Border);
    push_edge(&mut edges, 13, 11, 0, 7, EdgeKind::Border);
    push_edge(&mut edges, 13, 12, 7, 1, EdgeKind::Border);
    push_edge(&mut edges, 13, 17, 0, 8, EdgeKind::Valley);
    push_edge(&mut edges, 13, 18, 8, 2, EdgeKind::Valley);
    push_edge(&mut edges, 13, 19, 8, 9, EdgeKind::Mountain);
    push_edge(&mut edges, 13, 20, 9, 5, EdgeKind::Mountain);
    push_edge(&mut edges, 13, 21, 2, 9, EdgeKind::Mountain);
    push_edge(&mut edges, 13, 22, 9, 1, EdgeKind::Mountain);
    push_edge(&mut edges, 13, 23, 8, 10, EdgeKind::Mountain);
    push_edge(&mut edges, 13, 24, 10, 7, EdgeKind::Mountain);
    push_edge(&mut edges, 13, 25, 0, 10, EdgeKind::Mountain);
    push_edge(&mut edges, 13, 26, 10, 1, EdgeKind::Mountain);
    push_edge(&mut edges, 13, 27, 4, 11, EdgeKind::Mountain);
    push_edge(&mut edges, 13, 28, 11, 8, EdgeKind::Mountain);
    push_edge(&mut edges, 13, 29, 0, 11, EdgeKind::Mountain);
    push_edge(&mut edges, 13, 30, 11, 3, EdgeKind::Mountain);
    push_edge(&mut edges, 13, 31, 6, 12, EdgeKind::Mountain);
    push_edge(&mut edges, 13, 32, 12, 8, EdgeKind::Mountain);
    push_edge(&mut edges, 13, 33, 2, 12, EdgeKind::Mountain);
    push_edge(&mut edges, 13, 34, 12, 3, EdgeKind::Mountain);
    push_edge(&mut edges, 13, 35, 11, 12, EdgeKind::Valley);
    push_edge(&mut edges, 13, 36, 9, 10, EdgeKind::Valley);
    proof {
        assert(vertices@ =~= zero_back_user_cp_vertices());
        assert(edges@ =~= zero_back_user_cp_edges());
    }
    CreasePattern { vertices, edges, next_vertex_id: 13, next_edge_id: 37 }
}

/// The square of `zero_back_user_cp` with its vertices and edges numbered differently.
#[verifier::rlimit(60)]
pub fn live_frame_cp() -> (r: CreasePattern)
    ensures
        numbered_pattern(r@),
        r@.vertices.len() == 13,
        r@.edges.len() == 28,
        r@.next_edge_id == 37,
        r@.vertices == live_frame_cp_vertices(),
        r@.edges == live_frame_cp_edges(),
{
    let mut vertices: Vec<Vertex> = Vec::new();
    push_vertex(&mut vertices, 0, 0);
    push_vertex(&mut vertices, 0x3ff0000000000000, 0);
    push_vertex(&mut vertices, 0x3ff0000000000000, 0x3ff0000000000000);
    push_vertex(&mut vertices, 0, 0x3ff0000000000000);
    push_vertex(&mut vertices, 0x3ff0000000000000, 0x3fe0000000000000);
    push_vertex(&mut vertices, 0, 0x3fe0000000000000);
    push_vertex(&mut vertices, 0x3fe0000000000000, 0x3ff0000000000000);
    push_vertex(&mut vertices, 0x3fe0000000000000, 0);
    push_vertex(&mut vertices, 0x3fe0000000000000, 0x3fe0000000000000);
    push_vertex(&mut vertices, 0x3fe0000000000000, 0x3fe95f619980c434);
    push_vertex(&mut vertices, 0x3fe95f619980c434, 0x3fe0000000000000);
    push_vertex(&mut vertices, 0x3fe0000000000000, 0x3fca827999fcef32);
    push_vertex(&mut vertices, 0x3fca827999fcef32, 0x3fe0000000000000);
    let mut edges: Vec<Edge> = Vec::new();
    push_edge(&mut edges, 13, 4, 1, 4, EdgeKind::Border);
    push_edge(&mut edges, 13, 5, 4, 2, EdgeKind::Border);
    push_edge(&mut edges, 13, 6, 3, 5, EdgeKind::Border);
    push_edge(&mut edges, 13, 7, 5, 0, EdgeKind::Border);
    push_edge(&mut edges, 13, 9, 2, 6, EdgeKind::Border);
    push_edge(&mut edges, 13, 10, 6, 3, EdgeKind::Border);
    push_edge(&mut edges, 13, 11, 0, 7, EdgeKind::Border);
    push_edge(&mut edges, 13, 12, 7, 1, EdgeKind::Border);
    push_edge(&mut edges, 13, 17, 0, 8, EdgeKind::Valley);
    push_edge(&mut edges, 13, 18, 8, 2, EdgeKind::Valley);
    push_edge(&mut edges, 13, 19, 6, 9, EdgeKind::Mountain);
    push_edge(&mut edges, 13, 20, 9, 8, EdgeKind::Mountain);
    push_edge(&mut edges, 13, 21, 2, 9, EdgeKind::Mountain);
    push_edge(&mut edges, 13, 22, 4, 10, EdgeKind::Mountain);
    push_edge(&mut edges, 13, 23, 10, 8, EdgeKind::Mountain);
    push_edge(&mut edges, 13, 24, 2, 10, EdgeKind::Mountain);
    push_edge(&mut edges, 13, 25, 10, 1, EdgeKind::Mountain);
    push_edge(&mut edges, 13, 26, 8, 11, EdgeKind::Mountain);
    push_edge(&mut edges, 13, 27, 11, 7, EdgeKind::Mountain);
    push_edge(&mut edges, 13, 28, 0, 11, EdgeKind::Mountain);
    push_edge(&mut edges, 13, 29, 11, 1, EdgeKind::Mountain);
    push_edge(&mut edges, 13, 30, 8, 12, EdgeKind::Mountain);
    push_edge(&mut edges, 13, 31, 12, 5, EdgeKind::Mountain);
    push_edge(&mut edges, 13, 32, 0, 12, EdgeKind::Mountain);
    push_edge(&mut edges, 13, 33, 12, 3, EdgeKind::Mountain);
    push_edge(&mut edges, 13, 34, 3, 9, EdgeKind::Mountain);
    push_edge(&mut edges, 13, 35, 12, 9, EdgeKind::Valley);
    push_edge(&mut edges, 13, 36, 10, 11, EdgeKind::Valley);
    proof {
        assert(vertices@ =~= live_frame_cp_vertices());
        assert(edges@ =~= live_frame_cp_edges());
    }
    CreasePattern { vertices, edges, next_vertex_id: 13, next_edge_id: 37 }
}

/// How a warm start of the pose solver is driven towards the final angles.
#[derive(Clone, Copy, Debug, PartialEq, Eq, Structural)]
pub enum ZeroBackWarmPath {
    /// Edge 36 held hard while the other nineteen angles are preferred.
    Active36WithPreferred,
    /// Only edge 36 held hard; the other nineteen follow freely.
    Edge36Only,
    /// All twenty angles held hard, leaving nothing free to choose a branch.
    AllHardControl,
}

/// The name under which each warm path is reported.
pub open spec fn warm_path_label(path: ZeroBackWarmPath) -> Seq<char> {
    match path {
        ZeroBackWarmPath::Active36WithPreferred => "edge36-hard-plus-19-preferred"@,
        ZeroBackWarmPath::Edge36Only => "edge36-hard-only"@,
        ZeroBackWarmPath::AllHardControl => "all-20-hard-control"@,
    }
}

impl ZeroBackWarmPath {
    /// The name under which this warm path is reported.
    pub fn label(self) -> (r: &'static str)
        ensures
            r@ == warm_path_label(self),
    {
        match self {
            ZeroBackWarmPath::Active36WithPreferred => "edge36-hard-plus-19-preferred",
            ZeroBackWarmPath::Edge36Only => "edge36-hard-only",
            ZeroBackWarmPath::AllHardControl => "all-20-hard-control",
        }
    }
}

} // verus!

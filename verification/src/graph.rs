//! The vertices of a tape as a graph: which sequences are safe to sweep.
//!
//! A tape stores parent positions as they are handed to it. Whether they
//! make sense can only be told of the whole sequence: [`backward_linked`]
//! says so. The tape's methods report on it, and callers keep it by naming
//! only operands that were recorded before.

use vstd::prelude::*;

use crate::vertex::Vertex;

verus! {

/// Every vertex of `vertices` links backward from its own position: no vertex
/// names a parent that was recorded after it. Apart from the slots that point
/// at their own vertex, such a sequence is a directed acyclic graph whose
/// edges run from later to earlier positions.
pub open spec fn backward_linked(vertices: Seq<Vertex>) -> bool {
    forall|i: int| 0 <= i < vertices.len() ==> (#[trigger] vertices[i]).links_backward(i)
}

/// `count` leaves recorded one after the other, the first at position `start`.
pub open spec fn leaves(start: nat, count: nat) -> Seq<Vertex> {
    Seq::new(count, |k: int| Vertex::leaf((start + k) as usize))
}

/// In a backward-linked sequence every parent position is in range, and a
/// parent other than the vertex itself stands strictly before it: following
/// parents never comes back to where it started.
pub proof fn lemma_backward_linked_in_range(vertices: Seq<Vertex>, i: int, slot: int)
    requires
        backward_linked(vertices),
        0 <= i < vertices.len(),
        0 <= slot < 2,
    ensures
        vertices[i].parents[slot] < vertices.len(),
        vertices[i].parents[slot] != i ==> vertices[i].parents[slot] < i,
{
}

/// Appending a vertex keeps a sequence backward linked exactly when the new
/// vertex links backward from the position it is given.
pub proof fn lemma_push_backward_linked(vertices: Seq<Vertex>, vertex: Vertex)
    ensures
        backward_linked(vertices.push(vertex)) <==> backward_linked(vertices)
            && vertex.links_backward(vertices.len() as int),
{
    let grown = vertices.push(vertex);
    if backward_linked(grown) {
        assert forall|i: int| 0 <= i < vertices.len() implies (#[trigger] vertices[i])
            .links_backward(i) by {
            assert(grown[i] == vertices[i]);
        }
        assert(grown[vertices.len() as int] == vertex);
    }
}

/// Resetting the coefficients of every vertex neither makes nor breaks a
/// backward link: the parents are not touched.
pub proof fn lemma_zeroed_backward_linked(vertices: Seq<Vertex>)
    ensures
        backward_linked(vertices.map_values(|vertex: Vertex| vertex.zeroed()))
            <==> backward_linked(vertices),
{
    let reset = vertices.map_values(|vertex: Vertex| vertex.zeroed());
    if backward_linked(reset) {
        assert forall|i: int| 0 <= i < vertices.len() implies (#[trigger] vertices[i])
            .links_backward(i) by {
            assert(reset[i].links_backward(i));
        }
    }
}

} // verus!

//! The record that one operation leaves on the tape.

use vstd::prelude::*;

verus! {

/// Bit pattern of the coefficient zero (IEEE 754 binary64, positive sign).
pub const ZERO: u64 = 0;

/// How many operands an operation has.
#[derive(Clone, Copy, Debug, PartialEq, Eq, Structural)]
pub enum OperationArity {
    /// No operand: an independent input.
    Nullary,
    /// One operand.
    Unary,
    /// Two operands.
    Binary,
}

/// One node of the computation graph.
///
/// `parents` are positions on the same tape; `partials` are the local
/// derivatives with respect to each parent, kept as IEEE 754 binary64 bit
/// patterns. The tape only stores, copies and resets coefficients, so it never
/// needs their numeric value. A slot that has no operand points at the vertex
/// itself and carries [`ZERO`].
#[derive(Clone, Copy, Debug, PartialEq, Eq)]
pub struct Vertex {
    pub partials: [u64; 2],
    pub parents: [usize; 2],
}

impl Vertex {
    /// The vertex of an independent input recorded at position `index`.
    pub open spec fn leaf(index: usize) -> Vertex {
        Vertex { partials: [ZERO, ZERO], parents: [index, index] }
    }

    /// The vertex of a one-operand operation recorded at position `index`.
    pub open spec fn unary(index: usize, parent0: usize, partial0: u64) -> Vertex {
        Vertex { partials: [partial0, ZERO], parents: [parent0, index] }
    }

    /// The vertex of a two-operand operation.
    pub open spec fn binary(
        parent0: usize,
        partial0: u64,
        parent1: usize,
        partial1: u64,
    ) -> Vertex {
        Vertex { partials: [partial0, partial1], parents: [parent0, parent1] }
    }

    /// The vertex that recording an operation of the given arity at position
    /// `index` creates. Entries of `parents` and `partials` beyond the arity
    /// are not read.
    pub open spec fn recorded(
        index: usize,
        operation: OperationArity,
        parents: [usize; 2],
        partials: [u64; 2],
    ) -> Vertex {
        match operation {
            OperationArity::Nullary => Vertex::leaf(index),
            OperationArity::Unary => Vertex::unary(index, parents[0], partials[0]),
            OperationArity::Binary => Vertex::binary(
                parents[0],
                partials[0],
                parents[1],
                partials[1],
            ),
        }
    }

    /// The same vertex with both coefficients reset.
    pub open spec fn zeroed(self) -> Vertex {
        Vertex { partials: [ZERO, ZERO], parents: self.parents }
    }

    /// Both parent slots point at `index` or before it.
    pub open spec fn links_backward(self, index: int) -> bool {
        self.parents[0] <= index && self.parents[1] <= index
    }
}

/// A leaf is the same whatever else is handed to the recording: the operand
/// and coefficient arguments are not read, so no value of them can spoil it.
pub proof fn lemma_leaf_ignores_arguments(index: usize, parents: [usize; 2], partials: [u64; 2])
    ensures
        Vertex::recorded(index, OperationArity::Nullary, parents, partials) == Vertex::leaf(index),
        Vertex::leaf(index).parents[0] == index,
        Vertex::leaf(index).parents[1] == index,
        Vertex::leaf(index).partials[0] == ZERO,
        Vertex::leaf(index).partials[1] == ZERO,
{
}

/// A one-operand recording reads the first operand and the first coefficient
/// only: the second slot always points at the vertex itself and carries
/// [`ZERO`].
pub proof fn lemma_unary_ignores_second_slot(
    index: usize,
    parents: [usize; 2],
    partials: [u64; 2],
)
    ensures
        Vertex::recorded(index, OperationArity::Unary, parents, partials) == Vertex::unary(
            index,
            parents[0],
            partials[0],
        ),
        Vertex::unary(index, parents[0], partials[0]).parents[0] == parents[0],
        Vertex::unary(index, parents[0], partials[0]).parents[1] == index,
        Vertex::unary(index, parents[0], partials[0]).partials[0] == partials[0],
        Vertex::unary(index, parents[0], partials[0]).partials[1] == ZERO,
{
}

/// A two-operand recording stores both operands and both coefficients as
/// given, each coefficient in the slot of its own operand.
pub proof fn lemma_binary_keeps_order(index: usize, parents: [usize; 2], partials: [u64; 2])
    ensures
        Vertex::recorded(index, OperationArity::Binary, parents, partials) == Vertex::binary(
            parents[0],
            partials[0],
            parents[1],
            partials[1],
        ),
        Vertex::recorded(index, OperationArity::Binary, parents, partials).parents == parents,
        Vertex::recorded(index, OperationArity::Binary, parents, partials).partials == partials,
{
}

} // verus!

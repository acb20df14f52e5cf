//! The tape: vertices in the order in which they were recorded.

use vstd::prelude::*;

use crate::history::{apply, lemma_replay_leaves, replay, Call};
use crate::variable::Variable;
use crate::graph::{
    backward_linked, leaves, lemma_push_backward_linked, lemma_zeroed_backward_linked,
};
use crate::vertex::{OperationArity, Vertex, ZERO};

verus! {

/// An append-only list of vertices (a Wengert list).
///
/// A vertex is known by its position, which is the length of the tape at the
/// moment it was recorded. Positions never change while the tape grows.
#[derive(Debug)]
pub struct Tape {
    /// The vertices, by position.
    pub vertices: Vec<Vertex>,
}

impl View for Tape {
    type V = Seq<Vertex>;

    open spec fn view(&self) -> Seq<Vertex> {
        self.vertices@
    }
}

impl Clone for Tape {
    fn clone(&self) -> (copy: Self)
        ensures
            copy@ == self@,
    {
        Tape { vertices: self.vertices.clone() }
    }
}

impl Default for Tape {
    #[inline]
    fn default() -> (tape: Self)
        ensures
            tape@ == Seq::<Vertex>::empty(),
            backward_linked(tape@),
    {
        Tape { vertices: Vec::new() }
    }
}

impl Tape {
    /// An empty tape.
    #[inline]
    pub fn new() -> (tape: Self)
        ensures
            tape@ == Seq::<Vertex>::empty(),
            backward_linked(tape@),
    {
        Tape { vertices: Vec::new() }
    }

    /// Records an independent input with the given value and returns the
    /// handle for it.
    #[inline]
    pub fn var(&mut self, value: u64) -> (variable: Variable)
        ensures
            variable.value == value,
            variable.index == old(self)@.len(),
            final(self)@ == old(self)@.push(Vertex::leaf(variable.index)),
            final(self)@ == apply(old(self)@, Call::Leaf),
            backward_linked(final(self)@) <==> backward_linked(old(self)@),
    {
        Variable { value, index: self.push_nullary() }
    }

    /// Records one independent input for each of `values`, in their order,
    /// and returns the handles in the same order.
    #[inline]
    pub fn vars(&mut self, values: &[u64]) -> (variables: Vec<Variable>)
        ensures
            variables@.len() == values@.len(),
            forall|k: int|
                0 <= k < values@.len() ==> (#[trigger] variables@[k]).value == values@[k]
                    && variables@[k].index == old(self)@.len() + k,
            final(self)@ == old(self)@ + leaves(old(self)@.len(), values@.len()),
            final(self)@ == replay(old(self)@, Seq::new(values@.len(), |k: int| Call::Leaf)),
            backward_linked(final(self)@) <==> backward_linked(old(self)@),
    {
        let mut variables: Vec<Variable> = Vec::new();
        let mut k: usize = 0;
        while k < values.len()
            invariant
                k <= values@.len(),
                variables@.len() == k,
                forall|j: int|
                    0 <= j < k ==> (#[trigger] variables@[j]).value == values@[j]
                        && variables@[j].index == old(self)@.len() + j,
                self@ == old(self)@ + leaves(old(self)@.len(), k as nat),
                backward_linked(self@) <==> backward_linked(old(self)@),
            decreases values@.len() - k,
        {
            let variable = self.var(values[k]);
            variables.push(variable);
            k += 1;
        }
        proof {
            lemma_replay_leaves(old(self)@, values@.len());
        }
        variables
    }

    /// The number of vertices on the tape, which is also the position that
    /// the next recorded vertex will get.
    #[inline]
    pub fn len(&self) -> (len: usize)
        ensures
            len == self@.len(),
    {
        self.vertices.len()
    }

    /// Whether nothing has been recorded since the tape was made or last
    /// cleared.
    #[inline]
    pub fn is_empty(&self) -> (empty: bool)
        ensures
            empty <==> self@.len() == 0,
    {
        self.vertices.len() == 0
    }

    /// Removes every vertex. Positions handed out before the call no longer
    /// name anything; the next recording starts again at position 0.
    #[inline]
    pub fn clear(&mut self)
        ensures
            final(self)@ == Seq::<Vertex>::empty(),
            final(self)@ == apply(old(self)@, Call::Clear),
            backward_linked(final(self)@),
    {
        self.vertices.clear();
    }

    /// Resets both coefficients of every vertex to [`ZERO`]. The number of
    /// vertices and their parents stay as they are.
    #[inline]
    pub fn zero(&mut self)
        ensures
            final(self)@.len() == old(self)@.len(),
            forall|i: int|
                0 <= i < old(self)@.len() ==> (#[trigger] final(self)@[i]).parents
                    == old(self)@[i].parents && final(self)@[i].partials == [ZERO, ZERO],
            final(self)@ == apply(old(self)@, Call::Zero),
            backward_linked(final(self)@) <==> backward_linked(old(self)@),
    {
        let mut i: usize = 0;
        while i < self.vertices.len()
            invariant
                i <= self@.len(),
                self@.len() == old(self)@.len(),
                forall|j: int| 0 <= j < i ==> self@[j] == old(self)@[j].zeroed(),
                forall|j: int| i <= j < self@.len() ==> self@[j] == old(self)@[j],
            decreases self@.len() - i,
        {
            self.vertices[i].partials = [ZERO, ZERO];
            i += 1;
        }
        proof {
            lemma_zeroed_backward_linked(old(self)@);
        }
    }

    /// Records an operation of the given arity and returns its position.
    ///
    /// Only the entries of `parents` and `partials` that the arity calls for
    /// are read; see [`Vertex::recorded`]. Parent positions are stored as
    /// given, without a range check.
    #[inline]
    pub fn push(
        &mut self,
        operation: OperationArity,
        parents: &[usize; 2],
        partials: &[u64; 2],
    ) -> (index: usize)
        ensures
            index == old(self)@.len(),
            final(self)@ == old(self)@.push(
                Vertex::recorded(index, operation, *parents, *partials),
            ),
            final(self)@ == apply(old(self)@, Call::recording(operation, *parents, *partials)),
            backward_linked(final(self)@) <==> backward_linked(old(self)@) && Vertex::recorded(
                index,
                operation,
                *parents,
                *partials,
            ).links_backward(index as int),
    {
        let len: usize = self.vertices.len();

        let vertex = match operation {
            OperationArity::Nullary => Vertex { partials: [ZERO, ZERO], parents: [len, len] },
            OperationArity::Unary => Vertex {
                partials: [partials[0], ZERO],
                parents: [parents[0], len],
            },
            OperationArity::Binary => Vertex {
                partials: [partials[0], partials[1]],
                parents: [parents[0], parents[1]],
            },
        };

        proof {
            lemma_push_backward_linked(self@, vertex);
        }
        self.vertices.push(vertex);

        len
    }

    /// Records an independent input and returns its position.
    #[inline]
    pub fn push_nullary(&mut self) -> (index: usize)
        ensures
            index == old(self)@.len(),
            final(self)@ == old(self)@.push(Vertex::leaf(index)),
            final(self)@ == apply(old(self)@, Call::Leaf),
            backward_linked(final(self)@) <==> backward_linked(old(self)@),
    {
        let len: usize = self.vertices.len();
        proof {
            lemma_push_backward_linked(self@, Vertex::leaf(len));
        }
        self.vertices.push(Vertex { partials: [ZERO, ZERO], parents: [len, len] });
        len
    }

    /// Records a one-operand operation and returns its position.
    ///
    /// `parent0` is the operand's position and `partial0` the derivative of
    /// the result with respect to it. The second slot is left without an
    /// operand.
    #[inline]
    pub fn push_unary(&mut self, parent0: usize, partial0: u64) -> (index: usize)
        ensures
            index == old(self)@.len(),
            final(self)@ == old(self)@.push(Vertex::unary(index, parent0, partial0)),
            final(self)@ == apply(old(self)@, (Call::Unary { parent0, partial0 })),
            backward_linked(final(self)@) <==> backward_linked(old(self)@) && parent0 <= index,
    {
        let len: usize = self.vertices.len();
        proof {
            lemma_push_backward_linked(self@, Vertex::unary(len, parent0, partial0));
        }
        self.vertices.push(Vertex { partials: [partial0, ZERO], parents: [parent0, len] });
        len
    }

    /// Records a two-operand operation and returns its position.
    ///
    /// Each coefficient stays with its own operand: `partial0` with
    /// `parent0`, `partial1` with `parent1`.
    #[inline]
    pub fn push_binary(
        &mut self,
        parent0: usize,
        partial0: u64,
        parent1: usize,
        partial1: u64,
    ) -> (index: usize)
        ensures
            index == old(self)@.len(),
            final(self)@ == old(self)@.push(Vertex::binary(parent0, partial0, parent1, partial1)),
            final(self)@ == apply(
                old(self)@,
                (Call::Binary { parent0, partial0, parent1, partial1 }),
            ),
            backward_linked(final(self)@) <==> backward_linked(old(self)@) && parent0 <= index
                && parent1 <= index,
    {
        let len: usize = self.vertices.len();
        proof {
            lemma_push_backward_linked(
                self@,
                Vertex::binary(parent0, partial0, parent1, partial1),
            );
        }
        self.vertices.push(Vertex { partials: [partial0, partial1], parents: [parent0, parent1] });
        len
    }
}

} // verus!

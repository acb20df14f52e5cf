//! Sequences of calls on a tape, and what holds after any of them.
//!
//! The contract of each method of [`crate::Tape`] speaks of one call. The
//! functions here put calls in a row: [`apply`] is the effect of one call on
//! the vertices, and every method that changes the tape promises to have that
//! effect; [`replay`] is the effect of many. The lemmas state how positions
//! are handed out over a whole run.

use vstd::prelude::*;

use crate::graph::{
    backward_linked, leaves, lemma_push_backward_linked, lemma_zeroed_backward_linked,
};
use crate::vertex::{OperationArity, Vertex};

verus! {

/// One call that changes a tape.
pub enum Call {
    /// A recording of an independent input.
    Leaf,
    /// A recording of a one-operand operation.
    Unary { parent0: usize, partial0: u64 },
    /// A recording of a two-operand operation.
    Binary { parent0: usize, partial0: u64, parent1: usize, partial1: u64 },
    /// `clear`.
    Clear,
    /// `zero`.
    Zero,
}

impl Call {
    /// The recording that the general form makes of its arguments: it reads
    /// as many entries of `parents` and `partials` as the arity has operands.
    pub open spec fn recording(
        operation: OperationArity,
        parents: [usize; 2],
        partials: [u64; 2],
    ) -> Call {
        match operation {
            OperationArity::Nullary => Call::Leaf,
            OperationArity::Unary => Call::Unary { parent0: parents[0], partial0: partials[0] },
            OperationArity::Binary => Call::Binary {
                parent0: parents[0],
                partial0: partials[0],
                parent1: parents[1],
                partial1: partials[1],
            },
        }
    }

    /// Whether the call records a vertex.
    pub open spec fn is_recording(self) -> bool {
        !(self is Clear) && !(self is Zero)
    }

    /// The vertex that this recording leaves at position `index`.
    pub open spec fn vertex(self, index: usize) -> Vertex
        recommends
            self.is_recording(),
    {
        match self {
            Call::Unary { parent0, partial0 } => Vertex::unary(index, parent0, partial0),
            Call::Binary { parent0, partial0, parent1, partial1 } => Vertex::binary(
                parent0,
                partial0,
                parent1,
                partial1,
            ),
            _ => Vertex::leaf(index),
        }
    }

    /// This recording, made on a tape of length `index`, names no operand
    /// beyond its own position.
    pub open spec fn links_backward(self, index: nat) -> bool
        recommends
            self.is_recording(),
    {
        self.vertex(index as usize).links_backward(index as int)
    }
}

/// The vertices after `call` was made on a tape that held `vertices`.
pub open spec fn apply(vertices: Seq<Vertex>, call: Call) -> Seq<Vertex> {
    match call {
        Call::Clear => Seq::empty(),
        Call::Zero => vertices.map_values(|vertex: Vertex| vertex.zeroed()),
        _ => vertices.push(call.vertex(vertices.len() as usize)),
    }
}

/// The vertices after `calls` were made, in order, on a tape that held
/// `vertices`.
pub open spec fn replay(vertices: Seq<Vertex>, calls: Seq<Call>) -> Seq<Vertex>
    decreases calls.len(),
{
    if calls.len() == 0 {
        vertices
    } else {
        apply(replay(vertices, calls.drop_last()), calls.last())
    }
}

/// The length of the tape just before call number `k`: the position that this
/// call returns if it is a recording.
pub open spec fn position(vertices: Seq<Vertex>, calls: Seq<Call>, k: int) -> nat
    recommends
        0 <= k <= calls.len(),
{
    replay(vertices, calls.take(k)).len()
}

/// How many of `calls` are recordings made after the last `Clear` among them.
pub open spec fn recordings_since_clear(calls: Seq<Call>) -> nat
    decreases calls.len(),
{
    if calls.len() == 0 {
        0
    } else {
        match calls.last() {
            Call::Clear => 0,
            Call::Zero => recordings_since_clear(calls.drop_last()),
            _ => recordings_since_clear(calls.drop_last()) + 1,
        }
    }
}

/// Every call of `calls` is a recording.
pub open spec fn only_recordings(calls: Seq<Call>) -> bool {
    forall|k: int| 0 <= k < calls.len() ==> (#[trigger] calls[k]).is_recording()
}

/// The general form of a recording leaves the vertex that
/// [`Vertex::recorded`] describes.
pub proof fn lemma_recording_vertex(
    index: usize,
    operation: OperationArity,
    parents: [usize; 2],
    partials: [u64; 2],
)
    ensures
        Call::recording(operation, parents, partials).is_recording(),
        Call::recording(operation, parents, partials).vertex(index) == Vertex::recorded(
            index,
            operation,
            parents,
            partials,
        ),
{
}

/// The length of a tape that started empty is the number of recordings made
/// since it was last cleared.
pub proof fn lemma_length_counts_recordings(calls: Seq<Call>)
    ensures
        replay(Seq::empty(), calls).len() == recordings_since_clear(calls),
    decreases calls.len(),
{
    if calls.len() > 0 {
        lemma_length_counts_recordings(calls.drop_last());
    }
}

/// On a tape that started empty, every call finds the tape as long as the
/// number of recordings made since the last clear before it. A recording
/// returns that number as its position.
pub proof fn lemma_position_counts_recordings(calls: Seq<Call>, k: int)
    requires
        0 <= k <= calls.len(),
    ensures
        position(Seq::empty(), calls, k) == recordings_since_clear(calls.take(k)),
{
    lemma_length_counts_recordings(calls.take(k));
}

/// Recordings with no other call between them, on a tape that started empty,
/// return the positions 0, 1, 2, ... in the order of the calls, and the tape
/// is then as long as the number of calls.
pub proof fn lemma_positions_count_up(calls: Seq<Call>)
    requires
        only_recordings(calls),
    ensures
        forall|k: int|
            0 <= k <= calls.len() ==> #[trigger] position(Seq::empty(), calls, k) == k,
        replay(Seq::empty(), calls).len() == calls.len(),
{
    lemma_replay_recordings(Seq::empty(), calls);
}

/// The call after a `Clear` finds an empty tape, whatever the tape held
/// before: a recording made then gets position 0 again.
pub proof fn lemma_position_after_clear(vertices: Seq<Vertex>, calls: Seq<Call>, k: int)
    requires
        0 < k <= calls.len(),
        calls[k - 1] is Clear,
    ensures
        position(vertices, calls, k) == 0,
{
}

/// A run of recordings makes the tape longer by one vertex for each call.
proof fn lemma_recordings_len(vertices: Seq<Vertex>, calls: Seq<Call>)
    requires
        only_recordings(calls),
    ensures
        replay(vertices, calls).len() == vertices.len() + calls.len(),
    decreases calls.len(),
{
    if calls.len() > 0 {
        lemma_recordings_len(vertices, calls.drop_last());
    }
}

/// What stands at position `i` after a run of recordings.
proof fn lemma_recordings_at(vertices: Seq<Vertex>, calls: Seq<Call>, i: int)
    requires
        only_recordings(calls),
        0 <= i < vertices.len() + calls.len(),
    ensures
        replay(vertices, calls)[i] == if i < vertices.len() {
            vertices[i]
        } else {
            calls[i - vertices.len()].vertex(i as usize)
        },
    decreases calls.len(),
{
    if calls.len() > 0 {
        let earlier = calls.drop_last();
        lemma_recordings_len(vertices, earlier);
        if i < vertices.len() + earlier.len() {
            lemma_recordings_at(vertices, earlier, i);
        }
    }
}

/// Recordings only append. After a run of recordings the vertices that were
/// there before are unchanged and keep their positions, and behind them
/// stands one vertex for each call, in the order of the calls, each at the
/// position that its call returned.
pub proof fn lemma_replay_recordings(vertices: Seq<Vertex>, calls: Seq<Call>)
    requires
        only_recordings(calls),
    ensures
        replay(vertices, calls).len() == vertices.len() + calls.len(),
        forall|k: int|
            0 <= k <= calls.len() ==> #[trigger] position(vertices, calls, k)
                == vertices.len() + k,
        forall|i: int|
            0 <= i < vertices.len() ==> #[trigger] replay(vertices, calls)[i] == vertices[i],
        forall|i: int|
            vertices.len() <= i < vertices.len() + calls.len() ==> #[trigger] replay(
                vertices,
                calls,
            )[i] == calls[i - vertices.len()].vertex(i as usize),
{
    lemma_recordings_len(vertices, calls);
    assert forall|k: int| 0 <= k <= calls.len() implies #[trigger] position(vertices, calls, k)
        == vertices.len() + k by {
        lemma_recordings_len(vertices, calls.take(k));
    }
    assert forall|i: int| 0 <= i < vertices.len() + calls.len() implies #[trigger] replay(
        vertices,
        calls,
    )[i] == if i < vertices.len() {
        vertices[i]
    } else {
        calls[i - vertices.len()].vertex(i as usize)
    } by {
        lemma_recordings_at(vertices, calls, i);
    }
}

/// Recording `count` independent inputs one by one appends
/// [`leaves`]`(vertices.len(), count)`.
pub proof fn lemma_replay_leaves(vertices: Seq<Vertex>, count: nat)
    ensures
        replay(vertices, Seq::new(count, |k: int| Call::Leaf)) == vertices + leaves(
            vertices.len(),
            count,
        ),
{
    let calls = Seq::new(count, |k: int| Call::Leaf);
    lemma_recordings_len(vertices, calls);
    let appended = vertices + leaves(vertices.len(), count);
    assert forall|i: int| 0 <= i < appended.len() implies replay(vertices, calls)[i]
        == appended[i] by {
        lemma_recordings_at(vertices, calls, i);
    }
}

/// A tape stays backward linked through any run of calls in which each
/// recording names parents at or before the position it is given.
pub proof fn lemma_replay_backward_linked(vertices: Seq<Vertex>, calls: Seq<Call>)
    requires
        backward_linked(vertices),
        forall|k: int|
            0 <= k < calls.len() && calls[k].is_recording() ==> calls[k].links_backward(
                #[trigger] position(vertices, calls, k),
            ),
    ensures
        backward_linked(replay(vertices, calls)),
    decreases calls.len(),
{
    if calls.len() > 0 {
        let earlier = calls.drop_last();
        assert forall|k: int|
            0 <= k < earlier.len() && earlier[k].is_recording() implies earlier[k]
                .links_backward(#[trigger] position(vertices, earlier, k)) by {
            assert(calls.take(k) == earlier.take(k));
            assert(position(vertices, calls, k) == position(vertices, earlier, k));
        }
        lemma_replay_backward_linked(vertices, earlier);
        let before = replay(vertices, earlier);
        assert(position(vertices, calls, calls.len() - 1) == before.len());
        match calls.last() {
            Call::Clear => {},
            Call::Zero => {
                lemma_zeroed_backward_linked(before);
            },
            _ => {
                lemma_push_backward_linked(before, calls.last().vertex(before.len() as usize));
            },
        }
    }
}

} // verus!

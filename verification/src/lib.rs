//! An append-only tape (Wengert list) for reverse-mode automatic
//! differentiation.
//!
//! Every arithmetic operation of a differentiated program records one
//! [`Vertex`] on a [`Tape`]: the positions of its operands and the local
//! derivative with respect to each of them. A backward sweep over the tape,
//! from the last vertex to the first, then accumulates adjoints. This crate
//! holds the tape itself and proves its indexing discipline; the sweep and the
//! arithmetic on coefficients belong to its callers.
//!
//! * [`vertex`]: the record of one operation, and what each arity stores.
//! * [`variable`]: the handle of an independent input.
//! * [`tape`]: the tape and its methods, each with its contract.
//! * [`graph`]: when the parent links of a sequence of vertices all point
//!   backward.
//! * [`history`]: runs of calls, and the positions they hand out.
//!
//! Coefficients and values are IEEE 754 binary64 numbers held as their bit
//! patterns (`u64`). The tape never computes with them, so the bits are all it
//! needs, and they come back exactly as they went in.

pub mod graph;
pub mod history;
pub mod tape;
pub mod variable;
pub mod vertex;

pub use tape::Tape;
pub use variable::Variable;
pub use vertex::{OperationArity, Vertex, ZERO};

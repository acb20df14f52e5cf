//! The handle that a caller keeps for an independent input.

use vstd::prelude::*;

verus! {

/// An independent input of the computation: its value and the position of its
/// leaf vertex on the tape that recorded it.
///
/// The value is an IEEE 754 binary64 bit pattern, like the coefficients of a
/// vertex. The handle is plain data and does not borrow the tape; it names a
/// vertex only until that tape is cleared.
#[derive(Clone, Copy, Debug, PartialEq, Eq, Structural)]
pub struct Variable {
    pub value: u64,
    pub index: usize,
}

} // verus!

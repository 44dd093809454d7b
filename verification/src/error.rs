//! The two ways an operation on a geometry value can fail.
use vstd::prelude::*;

verus! {

/// What was used as an index: one signed offset into a sequence of
/// components or rows, or a row and column pair into a matrix.
#[derive(Clone, Copy, Debug, PartialEq, Eq)]
pub enum Position {
    Single(isize),
    Pair(isize, isize),
}

/// Failure of an operation. Both kinds are decided by the arguments alone and
/// leave the value they were called on unchanged.
#[derive(Debug, PartialEq, Eq)]
pub enum GeometryError {
    /// An index outside the valid range, with the index that was given.
    IndexOutOfRange(Position),
    /// An operand of a type for which the operation has no meaning, with the
    /// name of that type.
    TypeMismatch(String),
}

} // verus!

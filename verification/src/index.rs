//! Index resolution shared by the indexable types.
//!
//! Vectors and quaternions are indexed like sequences that also count from
//! the end: `-1` is the last component and `-len` the first. Matrices are
//! indexed from the front only.
use vstd::prelude::*;
use crate::error::{GeometryError, Position};

verus! {

/// The offset that `idx` denotes in a sequence of `len` items when negative
/// indices count from the end, if it denotes one.
pub open spec fn wrapped_offset(idx: int, len: int) -> Option<int> {
    if 0 <= idx < len {
        Some(idx)
    } else if -len <= idx < 0 {
        Some(idx + len)
    } else {
        None
    }
}

/// The offset that `idx` denotes in a sequence of `len` items when only
/// indices from the front are accepted, if it denotes one.
pub open spec fn front_offset(idx: int, len: int) -> Option<int> {
    if 0 <= idx < len {
        Some(idx)
    } else {
        None
    }
}

/// Resolves a signed index into a sequence of `len` items. An index in
/// `[-len, len)` resolves to its offset from the front; any other index is
/// out of range, and the error carries it.
pub fn resolve_index(idx: isize, len: usize) -> (r: Result<usize, GeometryError>)
    ensures
        match wrapped_offset(idx as int, len as int) {
            Some(k) => r == Ok::<usize, GeometryError>(k as usize),
            None => r == Err::<usize, GeometryError>(
                GeometryError::IndexOutOfRange(Position::Single(idx)),
            ),
        },
{
    if idx >= 0 {
        let offset: usize = idx as usize;
        if offset < len {
            return Ok(offset);
        }
    } else {
        // Distance of `idx` below -1; it fits because `idx` is negative.
        let below: usize = (-(idx + 1)) as usize;
        if below < len {
            return Ok(len - 1 - below);
        }
    }
    Err(GeometryError::IndexOutOfRange(Position::Single(idx)))
}

/// Resolves an index into a sequence of `len` items that does not count from
/// the end: only `[0, len)` is in range. Reports no error itself, so that the
/// caller can name the whole position that was asked for.
pub fn resolve_front(idx: isize, len: usize) -> (r: Option<usize>)
    ensures
        match front_offset(idx as int, len as int) {
            Some(k) => r == Some(k as usize),
            None => r.is_none(),
        },
{
    if idx >= 0 && (idx as usize) < len {
        Some(idx as usize)
    } else {
        None
    }
}

/// A negative index in range denotes the same item as that index plus the
/// length.
pub proof fn lemma_negative_index_wraps(idx: int, len: int)
    requires
        -len <= idx < 0,
    ensures
        wrapped_offset(idx, len) == wrapped_offset(idx + len, len),
        wrapped_offset(idx, len) == Some(idx + len),
{
}

/// An index is in range exactly when it lies in `[-len, len)`, and then its
/// offset lies in `[0, len)`.
pub proof fn lemma_wrapped_offset_range(idx: int, len: int)
    requires
        0 <= len,
    ensures
        wrapped_offset(idx, len).is_some() <==> -len <= idx < len,
        wrapped_offset(idx, len) matches Some(k) ==> 0 <= k < len,
{
}

} // verus!

//! Bounds computation for dynamically sized records: a fixed header
//! followed by `count` homogeneous trailing elements, where `count` was
//! read from a separate, previously decoded field and is never
//! self-stored in the trailing bytes.
//!
//! The total size is computed with full precision — the count originates
//! from storage and may be implausibly large — and decoding fails rather
//! than truncating silently when the total exceeds the buffer.

use vstd::prelude::*;

use crate::error::DecodeError;

verus! {

/// The total byte span of a header of `header_size` bytes followed by
/// `count` trailing elements of `element_size` bytes each.
pub open spec fn spec_dynamic_total(header_size: int, element_size: int, count: int) -> int {
    header_size + count * element_size
}

/// Computes `header_size + count * element_size` exactly and checks that
/// it fits inside a span of `span_len` bytes. Returns the total on
/// success; fails with [`DecodeError::TruncatedRecord`] when the total
/// exceeds the span, however large the count.
pub fn dynamic_tail_bounds(
    span_len: usize,
    header_size: usize,
    element_size: usize,
    count: usize,
) -> (r: Result<usize, DecodeError>)
    ensures
        spec_dynamic_total(header_size as int, element_size as int, count as int) <= span_len
            ==> r == Ok::<usize, DecodeError>(
            spec_dynamic_total(header_size as int, element_size as int, count as int) as usize,
        ),
        spec_dynamic_total(header_size as int, element_size as int, count as int) > span_len
            ==> r == Err::<usize, DecodeError>(DecodeError::TruncatedRecord),
{
    proof {
        assert((count as int) * (element_size as int) <= (u64::MAX as int) * (u64::MAX as int))
            by (nonlinear_arith)
            requires
                count as int <= u64::MAX as int,
                element_size as int <= u64::MAX as int,
        ;
    }
    let tail: u128 = (count as u128) * (element_size as u128);
    let total: u128 = (header_size as u128) + tail;
    if total <= span_len as u128 {
        Ok(total as usize)
    } else {
        Err(DecodeError::TruncatedRecord)
    }
}

} // verus!

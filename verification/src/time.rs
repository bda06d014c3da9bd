//! The 12-byte on-disk timestamp.

use vstd::bytes::*;
use vstd::prelude::*;

use crate::codec::{read_i64_at, read_u32_at, spec_i64_from_le_bytes};
use crate::error::DecodeError;

verus! {

/// The exact encoded width of a [`Time`].
pub const TIME_SIZE: usize = 12;

/// The layout of timestamps on disk.
#[derive(Clone, Copy, Debug, Hash, PartialEq, Eq, Structural)]
pub struct Time {
    /// The timestamp using Unix time convention.
    pub timestamp: i64,
    /// Nanoseconds past the beginning of the second in `timestamp`.
    pub nanoseconds: u32,
}

/// The timestamp whose encoding starts at byte `off` of `s`.
pub open spec fn spec_time_at(s: Seq<u8>, off: int) -> Time
    recommends
        0 <= off,
        off + TIME_SIZE <= s.len(),
{
    Time {
        timestamp: spec_i64_from_le_bytes(s.subrange(off, off + 8)),
        nanoseconds: spec_u32_from_le_bytes(s.subrange(off + 8, off + 12)),
    }
}

impl Time {
    /// Decodes the timestamp found at byte `offset` of an enclosing buffer.
    pub fn decode_at(bytes: &[u8], offset: usize) -> (r: Time)
        requires
            offset + TIME_SIZE <= bytes@.len(),
        ensures
            r == spec_time_at(bytes@, offset as int),
    {
        let _n: usize = bytes.len();
        Time {
            timestamp: read_i64_at(bytes, offset),
            nanoseconds: read_u32_at(bytes, offset + 8),
        }
    }

    /// Decodes a timestamp from the front of `bytes`; trailing bytes are
    /// ignored.
    pub fn from_bytes(bytes: &[u8]) -> (r: Result<Time, DecodeError>)
        ensures
            bytes@.len() >= TIME_SIZE ==> r == Ok::<Time, DecodeError>(spec_time_at(bytes@, 0)),
            bytes@.len() < TIME_SIZE ==> r == Err::<Time, DecodeError>(DecodeError::OutOfBounds),
    {
        if bytes.len() < TIME_SIZE {
            return Err(DecodeError::OutOfBounds);
        }
        Ok(Time::decode_at(bytes, 0))
    }
}

} // verus!

//! The 18-byte root reference record, used for both forward and backward
//! subvolume root references. The subtree name is stored after the end of
//! the fixed record, with its length given by the `name_len` field.

use vstd::bytes::*;
use vstd::prelude::*;

use crate::codec::{read_bytes_at, read_u16_at, read_u64_at};
use crate::dynamic::{dynamic_tail_bounds, spec_dynamic_total};
use crate::error::DecodeError;

verus! {

/// The encoded width of the fixed part of a [`RootRef`], preceding the
/// name bytes.
pub const ROOT_REF_SIZE: usize = 18;

/// References a subvolume filesystem tree root.
#[derive(Clone, Copy, Debug, Hash, PartialEq, Eq, Structural)]
pub struct RootRef {
    /// The subtree ID.
    pub dirid: u64,
    /// The directory sequence number of the subtree entry.
    pub sequence: u64,
    /// The length of the subtree name stored after this field.
    pub name_len: u16,
}

/// The root reference whose encoding starts at byte `off` of `s`.
pub open spec fn spec_root_ref_at(s: Seq<u8>, off: int) -> RootRef
    recommends
        0 <= off,
        off + ROOT_REF_SIZE <= s.len(),
{
    RootRef {
        dirid: spec_u64_from_le_bytes(s.subrange(off, off + 8)),
        sequence: spec_u64_from_le_bytes(s.subrange(off + 8, off + 16)),
        name_len: spec_u16_from_le_bytes(s.subrange(off + 16, off + 18)),
    }
}

impl RootRef {
    /// Decodes the fixed part found at byte `offset` of an enclosing
    /// buffer.
    pub fn decode_at(bytes: &[u8], offset: usize) -> (r: RootRef)
        requires
            offset + ROOT_REF_SIZE <= bytes@.len(),
        ensures
            r == spec_root_ref_at(bytes@, offset as int),
    {
        let _n: usize = bytes.len();
        RootRef {
            dirid: read_u64_at(bytes, offset),
            sequence: read_u64_at(bytes, offset + 8),
            name_len: read_u16_at(bytes, offset + 16),
        }
    }

    /// Decodes the fixed part from the front of `bytes`; the name bytes
    /// and anything after them are ignored.
    pub fn from_bytes(bytes: &[u8]) -> (r: Result<RootRef, DecodeError>)
        ensures
            bytes@.len() >= ROOT_REF_SIZE ==> r == Ok::<RootRef, DecodeError>(
                spec_root_ref_at(bytes@, 0),
            ),
            bytes@.len() < ROOT_REF_SIZE ==> r == Err::<RootRef, DecodeError>(
                DecodeError::OutOfBounds,
            ),
    {
        if bytes.len() < ROOT_REF_SIZE {
            return Err(DecodeError::OutOfBounds);
        }
        Ok(RootRef::decode_at(bytes, 0))
    }

    /// Decodes the fixed part and the trailing name it announces. The
    /// name length comes from the just-decoded `name_len` field; when the
    /// total of `18 + name_len` bytes exceeds the buffer, decoding fails
    /// with [`DecodeError::TruncatedRecord`] rather than cutting the name
    /// short. Bytes past the name are ignored.
    pub fn from_bytes_with_name(bytes: &[u8]) -> (r: Result<(RootRef, Vec<u8>), DecodeError>)
        ensures
            bytes@.len() < ROOT_REF_SIZE ==> r == Err::<(RootRef, Vec<u8>), DecodeError>(
                DecodeError::OutOfBounds,
            ),
            bytes@.len() >= ROOT_REF_SIZE && spec_dynamic_total(
                ROOT_REF_SIZE as int,
                1,
                spec_root_ref_at(bytes@, 0).name_len as int,
            ) > bytes@.len() ==> r == Err::<(RootRef, Vec<u8>), DecodeError>(
                DecodeError::TruncatedRecord,
            ),
            bytes@.len() >= ROOT_REF_SIZE && spec_dynamic_total(
                ROOT_REF_SIZE as int,
                1,
                spec_root_ref_at(bytes@, 0).name_len as int,
            ) <= bytes@.len() ==> (r matches Ok(p) && {
                let rr = spec_root_ref_at(bytes@, 0);
                &&& p.0 == rr
                &&& p.1@ == bytes@.subrange(ROOT_REF_SIZE as int, ROOT_REF_SIZE + rr.name_len)
            }),
    {
        let _n: usize = bytes.len();
        if bytes.len() < ROOT_REF_SIZE {
            return Err(DecodeError::OutOfBounds);
        }
        let fixed = RootRef::decode_at(bytes, 0);
        let name_len = fixed.name_len as usize;
        let _total = dynamic_tail_bounds(bytes.len(), ROOT_REF_SIZE, 1, name_len)?;
        let name = read_bytes_at(bytes, ROOT_REF_SIZE, name_len);
        Ok((fixed, name))
    }
}

} // verus!

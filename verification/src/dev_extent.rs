//! The 48-byte device extent record: maps physical extents on an
//! individual backing device to a chunk.

use vstd::bytes::*;
use vstd::prelude::*;

use crate::codec::{read_bytes_at, read_u64_at};
use crate::error::DecodeError;
use crate::UUID_SIZE;

verus! {

/// The exact encoded width of a [`DevExtent`].
pub const DEV_EXTENT_SIZE: usize = 48;

/// Maps physical extents on an individual backing device to a chunk. This
/// extent may be the only one for a particular chunk or one of several.
#[derive(Clone, Debug, Hash, PartialEq, Eq)]
pub struct DevExtent {
    /// The object ID of the chunk tree that owns this extent.
    pub chunk_tree: u64,
    /// The object ID of the chunk item that references this extent.
    pub chunk_objectid: u64,
    /// The offset of the chunk item that references this extent.
    pub chunk_offset: u64,
    /// The length of this extent, in bytes.
    pub length: u64,
    /// The UUID of the chunk tree that owns this extent; always
    /// [`UUID_SIZE`] bytes.
    pub chunk_tree_uuid: Vec<u8>,
}

/// The mathematical image of a [`DevExtent`].
pub struct DevExtentView {
    /// The object ID of the owning chunk tree.
    pub chunk_tree: u64,
    /// The object ID of the referencing chunk item.
    pub chunk_objectid: u64,
    /// The offset of the referencing chunk item.
    pub chunk_offset: u64,
    /// The length of the extent, in bytes.
    pub length: u64,
    /// The bytes of the owning chunk tree's UUID.
    pub chunk_tree_uuid: Seq<u8>,
}

impl View for DevExtent {
    type V = DevExtentView;

    open spec fn view(&self) -> DevExtentView {
        DevExtentView {
            chunk_tree: self.chunk_tree,
            chunk_objectid: self.chunk_objectid,
            chunk_offset: self.chunk_offset,
            length: self.length,
            chunk_tree_uuid: self.chunk_tree_uuid@,
        }
    }
}

/// The device extent whose encoding starts at byte `off` of `s`.
pub open spec fn spec_dev_extent_at(s: Seq<u8>, off: int) -> DevExtentView
    recommends
        0 <= off,
        off + DEV_EXTENT_SIZE <= s.len(),
{
    DevExtentView {
        chunk_tree: spec_u64_from_le_bytes(s.subrange(off, off + 8)),
        chunk_objectid: spec_u64_from_le_bytes(s.subrange(off + 8, off + 16)),
        chunk_offset: spec_u64_from_le_bytes(s.subrange(off + 16, off + 24)),
        length: spec_u64_from_le_bytes(s.subrange(off + 24, off + 32)),
        chunk_tree_uuid: s.subrange(off + 32, off + 48),
    }
}

impl DevExtent {
    /// Decodes the device extent found at byte `offset` of an enclosing
    /// buffer.
    pub fn decode_at(bytes: &[u8], offset: usize) -> (r: DevExtent)
        requires
            offset + DEV_EXTENT_SIZE <= bytes@.len(),
        ensures
            r@ == spec_dev_extent_at(bytes@, offset as int),
    {
        let _n: usize = bytes.len();
        DevExtent {
            chunk_tree: read_u64_at(bytes, offset),
            chunk_objectid: read_u64_at(bytes, offset + 8),
            chunk_offset: read_u64_at(bytes, offset + 16),
            length: read_u64_at(bytes, offset + 24),
            chunk_tree_uuid: read_bytes_at(bytes, offset + 32, UUID_SIZE),
        }
    }

    /// Decodes a device extent from the front of `bytes`; trailing bytes
    /// are ignored.
    pub fn from_bytes(bytes: &[u8]) -> (r: Result<DevExtent, DecodeError>)
        ensures
            bytes@.len() >= DEV_EXTENT_SIZE ==> (r matches Ok(d) && d@ == spec_dev_extent_at(
                bytes@,
                0,
            )),
            bytes@.len() < DEV_EXTENT_SIZE ==> r == Err::<DevExtent, DecodeError>(
                DecodeError::OutOfBounds,
            ),
    {
        if bytes.len() < DEV_EXTENT_SIZE {
            return Err(DecodeError::OutOfBounds);
        }
        Ok(DevExtent::decode_at(bytes, 0))
    }
}

} // verus!

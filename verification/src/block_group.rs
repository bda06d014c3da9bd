//! The 24-byte block group item, and the allocation-type and
//! replication-policy bit flags carried in its flags word.
//!
//! Allocation bits and replication bits are disjoint fields of one 64-bit
//! word and may be combined by bitwise OR; the system allocation bit,
//! however, may not be mixed with the data or metadata bits within one
//! block group. Validation fails closed: a word with unknown bits set is
//! invalid.

use vstd::bytes::*;
use vstd::prelude::*;

use crate::codec::read_u64_at;
use crate::error::DecodeError;

verus! {

/// The exact encoded width of a [`BlockGroupItem`].
pub const BLOCK_GROUP_ITEM_SIZE: usize = 24;

/// Allocation type: the block group holds file data.
pub const BLOCK_GROUP_DATA: u64 = 0x1;

/// Allocation type: the block group holds chunk/system metadata.
pub const BLOCK_GROUP_SYSTEM: u64 = 0x2;

/// Allocation type: the block group holds tree metadata.
pub const BLOCK_GROUP_METADATA: u64 = 0x4;

/// Replication policy: striping with no redundancy.
pub const BLOCK_GROUP_RAID0: u64 = 0x8;

/// Replication policy: mirroring across two devices.
pub const BLOCK_GROUP_RAID1: u64 = 0x10;

/// Replication policy: two copies on one device.
pub const BLOCK_GROUP_DUP: u64 = 0x20;

/// Replication policy: striped mirrors.
pub const BLOCK_GROUP_RAID10: u64 = 0x40;

/// Replication policy: striping with one parity stripe.
pub const BLOCK_GROUP_RAID5: u64 = 0x80;

/// Replication policy: striping with two parity stripes.
pub const BLOCK_GROUP_RAID6: u64 = 0x100;

/// Replication policy: mirroring across three devices.
pub const BLOCK_GROUP_RAID1C3: u64 = 0x200;

/// Replication policy: mirroring across four devices.
pub const BLOCK_GROUP_RAID1C4: u64 = 0x400;

/// Every defined allocation bit.
pub const BLOCK_GROUP_ALLOCATION_MASK: u64 = 0x7;

/// Every defined replication bit.
pub const BLOCK_GROUP_REPLICATION_MASK: u64 = 0x7F8;

/// Every defined flag bit of the block group flags word.
pub const BLOCK_GROUP_FLAGS_MASK: u64 = 0x7FF;

/// A block group flags word is valid when it holds only defined bits and
/// does not mix the system allocation bit with the data or metadata bits.
pub open spec fn spec_block_group_flags_valid(flags: u64) -> bool {
    &&& flags & BLOCK_GROUP_FLAGS_MASK == flags
    &&& !(flags & BLOCK_GROUP_SYSTEM != 0 && flags & (BLOCK_GROUP_DATA | BLOCK_GROUP_METADATA)
        != 0)
}

/// Checks a block group flags word; fails closed on unknown bits and on
/// the system bit mixed with data or metadata.
pub fn block_group_flags_valid(flags: u64) -> (r: bool)
    ensures
        r == spec_block_group_flags_valid(flags),
{
    flags & BLOCK_GROUP_FLAGS_MASK == flags && !(flags & BLOCK_GROUP_SYSTEM != 0 && flags & (
    BLOCK_GROUP_DATA | BLOCK_GROUP_METADATA) != 0)
}

/// Defines the location, properties, and usage of a block group.
#[derive(Clone, Copy, Debug, Hash, PartialEq, Eq, Structural)]
pub struct BlockGroupItem {
    /// The space used, in bytes, in this block group.
    pub used: u64,
    /// The object ID of the chunk backing this block group.
    pub chunk_objectid: u64,
    /// Flags indicating allocation type and replication policy.
    pub flags: u64,
}

/// The block group item whose encoding starts at byte `off` of `s`.
pub open spec fn spec_block_group_item_at(s: Seq<u8>, off: int) -> BlockGroupItem
    recommends
        0 <= off,
        off + BLOCK_GROUP_ITEM_SIZE <= s.len(),
{
    BlockGroupItem {
        used: spec_u64_from_le_bytes(s.subrange(off, off + 8)),
        chunk_objectid: spec_u64_from_le_bytes(s.subrange(off + 8, off + 16)),
        flags: spec_u64_from_le_bytes(s.subrange(off + 16, off + 24)),
    }
}

impl BlockGroupItem {
    /// Decodes the block group item found at byte `offset` of an enclosing
    /// buffer.
    pub fn decode_at(bytes: &[u8], offset: usize) -> (r: BlockGroupItem)
        requires
            offset + BLOCK_GROUP_ITEM_SIZE <= bytes@.len(),
        ensures
            r == spec_block_group_item_at(bytes@, offset as int),
    {
        let _n: usize = bytes.len();
        BlockGroupItem {
            used: read_u64_at(bytes, offset),
            chunk_objectid: read_u64_at(bytes, offset + 8),
            flags: read_u64_at(bytes, offset + 16),
        }
    }

    /// Decodes a block group item from the front of `bytes`; trailing
    /// bytes are ignored.
    pub fn from_bytes(bytes: &[u8]) -> (r: Result<BlockGroupItem, DecodeError>)
        ensures
            bytes@.len() >= BLOCK_GROUP_ITEM_SIZE ==> r == Ok::<BlockGroupItem, DecodeError>(
                spec_block_group_item_at(bytes@, 0),
            ),
            bytes@.len() < BLOCK_GROUP_ITEM_SIZE ==> r == Err::<BlockGroupItem, DecodeError>(
                DecodeError::OutOfBounds,
            ),
    {
        if bytes.len() < BLOCK_GROUP_ITEM_SIZE {
            return Err(DecodeError::OutOfBounds);
        }
        Ok(BlockGroupItem::decode_at(bytes, 0))
    }

    /// True exactly when this block group's flags word is valid: only
    /// defined bits, and the system bit not mixed with data or metadata.
    pub fn flags_valid(&self) -> (r: bool)
        ensures
            r == spec_block_group_flags_valid(self.flags),
    {
        block_group_flags_valid(self.flags)
    }
}

} // verus!

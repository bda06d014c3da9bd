//! The 160-byte inode item: traditional inode data and attributes, and
//! the inode flag bits carried in its flags word.

use vstd::bytes::*;
use vstd::prelude::*;

use crate::codec::read_u32_at;
use crate::codec::read_u64_at;
use crate::error::DecodeError;
use crate::time::{spec_time_at, Time};

verus! {

/// The exact encoded width of an [`InodeItem`].
pub const INODE_ITEM_SIZE: usize = 160;

/// Inode flag: do not perform checksum operations.
pub const INODE_NO_DATA_SUM: u64 = 0x1;

/// Inode flag: do not copy-on-write data extents when the reference count
/// is 1.
pub const INODE_NO_DATA_COW: u64 = 0x2;

/// Inode flag: the inode is read-only regardless of permissions or
/// ownership.
pub const INODE_READ_ONLY: u64 = 0x4;

/// Inode flag: do not perform compression.
pub const INODE_NO_COMPRESS: u64 = 0x8;

/// Inode flag: preallocated extents are present.
pub const INODE_PREALLOC: u64 = 0x10;

/// Inode flag: operations on this inode are performed synchronously.
pub const INODE_SYNC: u64 = 0x20;

/// Inode flag: the inode is immutable regardless of permissions or
/// ownership.
pub const INODE_IMMUTABLE: u64 = 0x40;

/// Inode flag: the inode is append-only.
pub const INODE_APPEND: u64 = 0x80;

/// Inode flag: do not consider the inode for dumping.
pub const INODE_NO_DUMP: u64 = 0x100;

/// Inode flag: do not update the access timestamp.
pub const INODE_NO_ATIME: u64 = 0x200;

/// Inode flag: operations on this directory are performed synchronously.
pub const INODE_DIR_SYNC: u64 = 0x400;

/// Inode flag: perform compression for the inode.
pub const INODE_COMPRESS: u64 = 0x800;

/// Every defined inode flag bit.
pub const INODE_FLAGS_MASK: u64 = 0xFFF;

/// Contains traditional inode data and attributes.
#[derive(Clone, Copy, Debug, Hash, PartialEq, Eq, Structural)]
pub struct InodeItem {
    /// The generation of the inode.
    pub generation: u64,
    /// The transaction ID of the last transaction touching the inode.
    pub transid: u64,
    /// The size of the file, in bytes.
    pub size: u64,
    /// The size allocated to the file, in bytes; 0 for directories.
    pub nbytes: u64,
    /// The byte offset of a block group when this is a free space inode;
    /// unused for normal inodes.
    pub block_group: u64,
    /// Count of inode references for the inode.
    pub nlink: u32,
    /// The user ID of the owner.
    pub uid: u32,
    /// The group ID of the group owner.
    pub gid: u32,
    /// The Unix protection mode.
    pub mode: u32,
    /// The device identifier, if a special file.
    pub rdev: u64,
    /// The inode flag word; see the `INODE_` flag constants.
    pub flags: u64,
    /// A sequence number incremented on each modification-time update.
    pub sequence: u64,
    /// Timestamp of the last access to the inode.
    pub atime: Time,
    /// Timestamp of the last change to the inode's properties.
    pub ctime: Time,
    /// Timestamp of the last change to the inode's contents.
    pub mtime: Time,
    /// Timestamp of the creation of the inode.
    pub otime: Time,
}

/// The inode item whose encoding starts at byte `off` of `s`. The 32
/// reserved bytes before the timestamps are skipped.
pub open spec fn spec_inode_item_at(s: Seq<u8>, off: int) -> InodeItem
    recommends
        0 <= off,
        off + INODE_ITEM_SIZE <= s.len(),
{
    InodeItem {
        generation: spec_u64_from_le_bytes(s.subrange(off, off + 8)),
        transid: spec_u64_from_le_bytes(s.subrange(off + 8, off + 16)),
        size: spec_u64_from_le_bytes(s.subrange(off + 16, off + 24)),
        nbytes: spec_u64_from_le_bytes(s.subrange(off + 24, off + 32)),
        block_group: spec_u64_from_le_bytes(s.subrange(off + 32, off + 40)),
        nlink: spec_u32_from_le_bytes(s.subrange(off + 40, off + 44)),
        uid: spec_u32_from_le_bytes(s.subrange(off + 44, off + 48)),
        gid: spec_u32_from_le_bytes(s.subrange(off + 48, off + 52)),
        mode: spec_u32_from_le_bytes(s.subrange(off + 52, off + 56)),
        rdev: spec_u64_from_le_bytes(s.subrange(off + 56, off + 64)),
        flags: spec_u64_from_le_bytes(s.subrange(off + 64, off + 72)),
        sequence: spec_u64_from_le_bytes(s.subrange(off + 72, off + 80)),
        atime: spec_time_at(s, off + 112),
        ctime: spec_time_at(s, off + 124),
        mtime: spec_time_at(s, off + 136),
        otime: spec_time_at(s, off + 148),
    }
}

impl InodeItem {
    /// Decodes the inode item found at byte `offset` of an enclosing
    /// buffer.
    pub fn decode_at(bytes: &[u8], offset: usize) -> (r: InodeItem)
        requires
            offset + INODE_ITEM_SIZE <= bytes@.len(),
        ensures
            r == spec_inode_item_at(bytes@, offset as int),
    {
        let _n: usize = bytes.len();
        InodeItem {
            generation: read_u64_at(bytes, offset),
            transid: read_u64_at(bytes, offset + 8),
            size: read_u64_at(bytes, offset + 16),
            nbytes: read_u64_at(bytes, offset + 24),
            block_group: read_u64_at(bytes, offset + 32),
            nlink: read_u32_at(bytes, offset + 40),
            uid: read_u32_at(bytes, offset + 44),
            gid: read_u32_at(bytes, offset + 48),
            mode: read_u32_at(bytes, offset + 52),
            rdev: read_u64_at(bytes, offset + 56),
            flags: read_u64_at(bytes, offset + 64),
            sequence: read_u64_at(bytes, offset + 72),
            atime: Time::decode_at(bytes, offset + 112),
            ctime: Time::decode_at(bytes, offset + 124),
            mtime: Time::decode_at(bytes, offset + 136),
            otime: Time::decode_at(bytes, offset + 148),
        }
    }

    /// Decodes an inode item from the front of `bytes`; trailing bytes
    /// are ignored.
    pub fn from_bytes(bytes: &[u8]) -> (r: Result<InodeItem, DecodeError>)
        ensures
            bytes@.len() >= INODE_ITEM_SIZE ==> r == Ok::<InodeItem, DecodeError>(
                spec_inode_item_at(bytes@, 0),
            ),
            bytes@.len() < INODE_ITEM_SIZE ==> r == Err::<InodeItem, DecodeError>(
                DecodeError::OutOfBounds,
            ),
    {
        if bytes.len() < INODE_ITEM_SIZE {
            return Err(DecodeError::OutOfBounds);
        }
        Ok(InodeItem::decode_at(bytes, 0))
    }
}

} // verus!

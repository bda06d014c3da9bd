//! Read-side decoding of the on-disk record layer of a copy-on-write,
//! tree-structured filesystem.
//!
//! Bytes read from storage are untrusted: every decoder takes a borrowed
//! byte buffer, performs an explicit bounds check, interprets packed
//! little-endian fields through the primitive codec, and either returns a
//! typed record or one of the failure kinds of [`error::DecodeError`].
//! No decoder panics and none substitutes defaults for invalid data.

use vstd::prelude::*;

pub mod block_group;
pub mod chunk;
pub mod codec;
pub mod dev_extent;
pub mod dev_item;
pub mod dynamic;
pub mod error;
pub mod extent_ref;
pub mod inode_item;
pub mod key;
pub mod node;
pub mod object_id;
pub mod root_backup;
pub mod root_item;
pub mod root_ref;
pub mod super_block;
pub mod time;

verus! {

/// The physical address of the primary superblock.
pub const PRIMARY_SUPERBLOCK_ADDR: u64 = 0x10000;

/// The physical address of the second superblock copy.
pub const SECONDARY_SUPERBLOCK_ADDR: u64 = 0x4000000;

/// The physical address of the third superblock copy.
pub const TERTIARY_SUPERBLOCK_ADDR: u64 = 0x4000000000;

/// The superblock magic: the 8-byte ASCII sequence `"_BHRfS_M"` read as a
/// little-endian 64-bit integer.
pub const MAGIC: u64 = 0x4D5F53665248425F;

/// The width of every checksum field, regardless of the algorithm's native
/// digest size; shorter digests are zero-padded.
pub const CSUM_SIZE: usize = 32;

/// The width of the filesystem UUID field.
pub const FSID_SIZE: usize = 16;

/// The width of the superblock label field.
pub const LABEL_SIZE: usize = 256;

/// The width of a device or chunk-tree UUID field.
pub const UUID_SIZE: usize = 16;

/// The width of the superblock's system chunk array field.
pub const MAX_SYSTEM_CHUNK_ARRAY_SIZE: usize = 2048;

/// How many backup root records the superblock holds.
pub const NUM_BACKUP_ROOTS: usize = 4;

/// The physical addresses at which a superblock may live, primary first.
pub fn superblock_addrs() -> (r: Vec<u64>)
    ensures
        r@ == seq![PRIMARY_SUPERBLOCK_ADDR, SECONDARY_SUPERBLOCK_ADDR, TERTIARY_SUPERBLOCK_ADDR],
{
    let mut addrs: Vec<u64> = Vec::new();
    addrs.push(PRIMARY_SUPERBLOCK_ADDR);
    addrs.push(SECONDARY_SUPERBLOCK_ADDR);
    addrs.push(TERTIARY_SUPERBLOCK_ADDR);
    proof {
        assert(addrs@ =~= seq![
            PRIMARY_SUPERBLOCK_ADDR,
            SECONDARY_SUPERBLOCK_ADDR,
            TERTIARY_SUPERBLOCK_ADDR,
        ]);
    }
    addrs
}

} // verus!

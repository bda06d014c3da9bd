//! The 168-byte backup root record: four of these sit near the end of the
//! superblock so that recent tree roots survive a torn superblock write.

use vstd::bytes::*;
use vstd::prelude::*;

use crate::codec::{read_u64_at, read_u8_at};
use crate::error::DecodeError;

verus! {

/// The exact encoded width of a [`RootBackup`].
pub const ROOT_BACKUP_SIZE: usize = 168;

/// A snapshot of the principal tree roots and their generations.
#[derive(Clone, Copy, Debug, Hash, PartialEq, Eq, Structural)]
pub struct RootBackup {
    /// The logical address of the root tree's root.
    pub tree_root: u64,
    /// The generation of the root tree.
    pub tree_root_gen: u64,
    /// The logical address of the chunk tree's root.
    pub chunk_root: u64,
    /// The generation of the chunk tree.
    pub chunk_root_gen: u64,
    /// The logical address of the extent tree's root.
    pub extent_root: u64,
    /// The generation of the extent tree.
    pub extent_root_gen: u64,
    /// The logical address of the filesystem tree's root.
    pub fs_root: u64,
    /// The generation of the filesystem tree.
    pub fs_root_gen: u64,
    /// The logical address of the device tree's root.
    pub dev_root: u64,
    /// The generation of the device tree.
    pub dev_root_gen: u64,
    /// The logical address of the checksum tree's root.
    pub csum_root: u64,
    /// The generation of the checksum tree.
    pub csum_root_gen: u64,
    /// The total bytes of the filesystem at the snapshot.
    pub total_bytes: u64,
    /// The bytes used at the snapshot.
    pub bytes_used: u64,
    /// The number of devices at the snapshot.
    pub num_devices: u64,
    /// The level of the root tree.
    pub tree_root_level: u8,
    /// The level of the chunk tree.
    pub chunk_root_level: u8,
    /// The level of the extent tree.
    pub extent_root_level: u8,
    /// The level of the filesystem tree.
    pub fs_root_level: u8,
    /// The level of the device tree.
    pub dev_root_level: u8,
    /// The level of the checksum tree.
    pub csum_root_level: u8,
}

/// The backup root whose encoding starts at byte `off` of `s`. The 32
/// reserved bytes before the levels and the 10 after them are skipped.
pub open spec fn spec_root_backup_at(s: Seq<u8>, off: int) -> RootBackup
    recommends
        0 <= off,
        off + ROOT_BACKUP_SIZE <= s.len(),
{
    RootBackup {
        tree_root: spec_u64_from_le_bytes(s.subrange(off, off + 8)),
        tree_root_gen: spec_u64_from_le_bytes(s.subrange(off + 8, off + 16)),
        chunk_root: spec_u64_from_le_bytes(s.subrange(off + 16, off + 24)),
        chunk_root_gen: spec_u64_from_le_bytes(s.subrange(off + 24, off + 32)),
        extent_root: spec_u64_from_le_bytes(s.subrange(off + 32, off + 40)),
        extent_root_gen: spec_u64_from_le_bytes(s.subrange(off + 40, off + 48)),
        fs_root: spec_u64_from_le_bytes(s.subrange(off + 48, off + 56)),
        fs_root_gen: spec_u64_from_le_bytes(s.subrange(off + 56, off + 64)),
        dev_root: spec_u64_from_le_bytes(s.subrange(off + 64, off + 72)),
        dev_root_gen: spec_u64_from_le_bytes(s.subrange(off + 72, off + 80)),
        csum_root: spec_u64_from_le_bytes(s.subrange(off + 80, off + 88)),
        csum_root_gen: spec_u64_from_le_bytes(s.subrange(off + 88, off + 96)),
        total_bytes: spec_u64_from_le_bytes(s.subrange(off + 96, off + 104)),
        bytes_used: spec_u64_from_le_bytes(s.subrange(off + 104, off + 112)),
        num_devices: spec_u64_from_le_bytes(s.subrange(off + 112, off + 120)),
        tree_root_level: s[off + 152],
        chunk_root_level: s[off + 153],
        extent_root_level: s[off + 154],
        fs_root_level: s[off + 155],
        dev_root_level: s[off + 156],
        csum_root_level: s[off + 157],
    }
}

impl RootBackup {
    /// Decodes the backup root found at byte `offset` of an enclosing
    /// buffer.
    pub fn decode_at(bytes: &[u8], offset: usize) -> (r: RootBackup)
        requires
            offset + ROOT_BACKUP_SIZE <= bytes@.len(),
        ensures
            r == spec_root_backup_at(bytes@, offset as int),
    {
        let _n: usize = bytes.len();
        RootBackup {
            tree_root: read_u64_at(bytes, offset),
            tree_root_gen: read_u64_at(bytes, offset + 8),
            chunk_root: read_u64_at(bytes, offset + 16),
            chunk_root_gen: read_u64_at(bytes, offset + 24),
            extent_root: read_u64_at(bytes, offset + 32),
            extent_root_gen: read_u64_at(bytes, offset + 40),
            fs_root: read_u64_at(bytes, offset + 48),
            fs_root_gen: read_u64_at(bytes, offset + 56),
            dev_root: read_u64_at(bytes, offset + 64),
            dev_root_gen: read_u64_at(bytes, offset + 72),
            csum_root: read_u64_at(bytes, offset + 80),
            csum_root_gen: read_u64_at(bytes, offset + 88),
            total_bytes: read_u64_at(bytes, offset + 96),
            bytes_used: read_u64_at(bytes, offset + 104),
            num_devices: read_u64_at(bytes, offset + 112),
            tree_root_level: read_u8_at(bytes, offset + 152),
            chunk_root_level: read_u8_at(bytes, offset + 153),
            extent_root_level: read_u8_at(bytes, offset + 154),
            fs_root_level: read_u8_at(bytes, offset + 155),
            dev_root_level: read_u8_at(bytes, offset + 156),
            csum_root_level: read_u8_at(bytes, offset + 157),
        }
    }

    /// Decodes a backup root from the front of `bytes`; trailing bytes
    /// are ignored.
    pub fn from_bytes(bytes: &[u8]) -> (r: Result<RootBackup, DecodeError>)
        ensures
            bytes@.len() >= ROOT_BACKUP_SIZE ==> r == Ok::<RootBackup, DecodeError>(
                spec_root_backup_at(bytes@, 0),
            ),
            bytes@.len() < ROOT_BACKUP_SIZE ==> r == Err::<RootBackup, DecodeError>(
                DecodeError::OutOfBounds,
            ),
    {
        if bytes.len() < ROOT_BACKUP_SIZE {
            return Err(DecodeError::OutOfBounds);
        }
        Ok(RootBackup::decode_at(bytes, 0))
    }
}

} // verus!

//! The 4096-byte superblock: the fixed root record describing the whole
//! filesystem's layout and entry points, and the closed enumeration of
//! checksum algorithms it may name.
//!
//! A buffer whose magic field does not hold the expected constant is some
//! other format, not a corrupt superblock; that case is reported as
//! [`DecodeError::InvalidMagic`] so a caller can probe the next candidate
//! address.

use vstd::bytes::*;
use vstd::prelude::*;

use crate::codec::{read_bytes_at, read_u16_at, read_u32_at, read_u64_at, read_u8_at};
use crate::dev_item::{spec_dev_item_at, DevItem, DevItemView};
use crate::error::DecodeError;
use crate::root_backup::{spec_root_backup_at, RootBackup, ROOT_BACKUP_SIZE};
use crate::{CSUM_SIZE, FSID_SIZE, LABEL_SIZE, MAGIC, MAX_SYSTEM_CHUNK_ARRAY_SIZE, NUM_BACKUP_ROOTS};

verus! {

/// The exact encoded width of a [`SuperBlock`].
pub const SUPER_BLOCK_SIZE: usize = 4096;

/// The byte offset of the magic field inside the superblock.
pub const SUPER_BLOCK_MAGIC_OFFSET: usize = 64;

/// The byte offset of the backup root array inside the superblock.
pub const SUPER_BLOCK_ROOTS_OFFSET: usize = 2859;

/// The hashing algorithm used for checksumming.
#[derive(Clone, Copy, Debug, Hash, PartialEq, Eq, Structural)]
pub enum ChecksumType {
    /// CRC-32 with the Castagnoli polynomial.
    CRC32C,
    /// 64-bit xxHash.
    XXHASH64,
    /// SHA-2 with a 256-bit digest.
    SHA256,
    /// BLAKE2b.
    BLAKE2b,
}

impl ChecksumType {
    /// The on-disk value of this checksum algorithm.
    pub open spec fn spec_value(self) -> u16 {
        match self {
            ChecksumType::CRC32C => 0,
            ChecksumType::XXHASH64 => 1,
            ChecksumType::SHA256 => 2,
            ChecksumType::BLAKE2b => 3,
        }
    }

    /// The on-disk value of this checksum algorithm.
    #[verifier::when_used_as_spec(spec_value)]
    pub fn value(self) -> (r: u16)
        ensures
            r == self.spec_value(),
    {
        match self {
            ChecksumType::CRC32C => 0,
            ChecksumType::XXHASH64 => 1,
            ChecksumType::SHA256 => 2,
            ChecksumType::BLAKE2b => 3,
        }
    }

    /// The checksum algorithm denoted by `x`, if `x` is in the closed
    /// set.
    pub open spec fn spec_from_value(x: u16) -> Option<ChecksumType> {
        if x == 0 {
            Some(ChecksumType::CRC32C)
        } else if x == 1 {
            Some(ChecksumType::XXHASH64)
        } else if x == 2 {
            Some(ChecksumType::SHA256)
        } else if x == 3 {
            Some(ChecksumType::BLAKE2b)
        } else {
            None
        }
    }

    /// Looks `x` up in the closed set; any other value is rejected.
    pub fn from_value(x: u16) -> (r: Option<ChecksumType>)
        ensures
            r == ChecksumType::spec_from_value(x),
            r matches Some(c) ==> c.value() == x,
    {
        match x {
            0 => Some(ChecksumType::CRC32C),
            1 => Some(ChecksumType::XXHASH64),
            2 => Some(ChecksumType::SHA256),
            3 => Some(ChecksumType::BLAKE2b),
            _ => None,
        }
    }
}

/// The layout of the superblock. A valid superblock must exist for the
/// filesystem to be identified.
#[derive(Clone, Debug, Hash, PartialEq, Eq)]
pub struct SuperBlock {
    /// Checksum of everything past this field; always [`CSUM_SIZE`]
    /// bytes.
    pub csum: Vec<u8>,
    /// Filesystem UUID; always [`FSID_SIZE`] bytes.
    pub fsid: Vec<u8>,
    /// The physical address of this block.
    pub bytenr: u64,
    /// Flags of the superblock.
    pub flags: u64,
    /// The magic; equal to [`MAGIC`] in every decoded superblock.
    pub magic: u64,
    /// The generation of the superblock.
    pub generation: u64,
    /// The logical address of the root tree's root.
    pub root: u64,
    /// The logical address of the chunk tree's root.
    pub chunk_root: u64,
    /// The logical address of the log tree's root.
    pub log_root: u64,
    /// The transaction ID of the log tree's root.
    pub log_root_transid: u64,
    /// The total bytes of the filesystem.
    pub total_bytes: u64,
    /// The bytes in use.
    pub bytes_used: u64,
    /// The root directory's object ID, typically 6.
    pub root_dir_objectid: u64,
    /// The number of devices the filesystem spans.
    pub num_devices: u64,
    /// The size of a sector.
    pub sectorsize: u32,
    /// The size of a tree node.
    pub nodesize: u32,
    /// Unused; kept for layout.
    pub leafsize: u32,
    /// The stripe size.
    pub stripesize: u32,
    /// The used length of `sys_chunk_array`.
    pub sys_chunk_array_size: u32,
    /// The generation of the chunk tree root.
    pub chunk_root_generation: u64,
    /// Compatible feature flags.
    pub compat_flags: u64,
    /// Features a writer must support.
    pub compat_ro_flags: u64,
    /// Features any user must support.
    pub incompat_flags: u64,
    /// The checksum algorithm; a value outside the closed set is a decode
    /// failure.
    pub csum_type: ChecksumType,
    /// The level of the root tree.
    pub root_level: u8,
    /// The level of the chunk tree.
    pub chunk_root_level: u8,
    /// The level of the log tree.
    pub log_root_level: u8,
    /// The device item of the device holding this superblock.
    pub dev_item: DevItem,
    /// The label, a null-terminated string; always [`LABEL_SIZE`] bytes.
    pub label: Vec<u8>,
    /// The generation of the free space cache.
    pub cache_generation: u64,
    /// The generation of the UUID tree.
    pub uuid_tree_generation: u64,
    /// The raw system chunk array bytes; always
    /// [`MAX_SYSTEM_CHUNK_ARRAY_SIZE`] bytes, of which
    /// `sys_chunk_array_size` are meaningful.
    pub sys_chunk_array: Vec<u8>,
    /// The backup roots; always [`NUM_BACKUP_ROOTS`] records.
    pub super_roots: Vec<RootBackup>,
}

/// The mathematical image of a [`SuperBlock`].
pub struct SuperBlockView {
    /// The bytes of the checksum field.
    pub csum: Seq<u8>,
    /// The bytes of the filesystem UUID.
    pub fsid: Seq<u8>,
    /// The physical address of the block.
    pub bytenr: u64,
    /// Flags of the superblock.
    pub flags: u64,
    /// The magic value.
    pub magic: u64,
    /// The generation of the superblock.
    pub generation: u64,
    /// The logical address of the root tree's root.
    pub root: u64,
    /// The logical address of the chunk tree's root.
    pub chunk_root: u64,
    /// The logical address of the log tree's root.
    pub log_root: u64,
    /// The transaction ID of the log tree's root.
    pub log_root_transid: u64,
    /// The total bytes of the filesystem.
    pub total_bytes: u64,
    /// The bytes in use.
    pub bytes_used: u64,
    /// The root directory's object ID.
    pub root_dir_objectid: u64,
    /// The number of devices.
    pub num_devices: u64,
    /// The size of a sector.
    pub sectorsize: u32,
    /// The size of a tree node.
    pub nodesize: u32,
    /// Unused; kept for layout.
    pub leafsize: u32,
    /// The stripe size.
    pub stripesize: u32,
    /// The used length of the system chunk array.
    pub sys_chunk_array_size: u32,
    /// The generation of the chunk tree root.
    pub chunk_root_generation: u64,
    /// Compatible feature flags.
    pub compat_flags: u64,
    /// Features a writer must support.
    pub compat_ro_flags: u64,
    /// Features any user must support.
    pub incompat_flags: u64,
    /// The checksum algorithm.
    pub csum_type: ChecksumType,
    /// The level of the root tree.
    pub root_level: u8,
    /// The level of the chunk tree.
    pub chunk_root_level: u8,
    /// The level of the log tree.
    pub log_root_level: u8,
    /// The image of the device item.
    pub dev_item: DevItemView,
    /// The bytes of the label.
    pub label: Seq<u8>,
    /// The generation of the free space cache.
    pub cache_generation: u64,
    /// The generation of the UUID tree.
    pub uuid_tree_generation: u64,
    /// The raw system chunk array bytes.
    pub sys_chunk_array: Seq<u8>,
    /// The backup roots.
    pub super_roots: Seq<RootBackup>,
}

impl View for SuperBlock {
    type V = SuperBlockView;

    open spec fn view(&self) -> SuperBlockView {
        SuperBlockView {
            csum: self.csum@,
            fsid: self.fsid@,
            bytenr: self.bytenr,
            flags: self.flags,
            magic: self.magic,
            generation: self.generation,
            root: self.root,
            chunk_root: self.chunk_root,
            log_root: self.log_root,
            log_root_transid: self.log_root_transid,
            total_bytes: self.total_bytes,
            bytes_used: self.bytes_used,
            root_dir_objectid: self.root_dir_objectid,
            num_devices: self.num_devices,
            sectorsize: self.sectorsize,
            nodesize: self.nodesize,
            leafsize: self.leafsize,
            stripesize: self.stripesize,
            sys_chunk_array_size: self.sys_chunk_array_size,
            chunk_root_generation: self.chunk_root_generation,
            compat_flags: self.compat_flags,
            compat_ro_flags: self.compat_ro_flags,
            incompat_flags: self.incompat_flags,
            csum_type: self.csum_type,
            root_level: self.root_level,
            chunk_root_level: self.chunk_root_level,
            log_root_level: self.log_root_level,
            dev_item: self.dev_item@,
            label: self.label@,
            cache_generation: self.cache_generation,
            uuid_tree_generation: self.uuid_tree_generation,
            sys_chunk_array: self.sys_chunk_array@,
            super_roots: self.super_roots@,
        }
    }
}

/// True when the magic field of the superblock starting at byte 0 of `s`
/// holds the expected constant.
pub open spec fn spec_super_block_magic_ok(s: Seq<u8>) -> bool {
    spec_u64_from_le_bytes(
        s.subrange(SUPER_BLOCK_MAGIC_OFFSET as int, SUPER_BLOCK_MAGIC_OFFSET + 8),
    ) == MAGIC
}

/// True when the checksum type field of the superblock starting at byte 0
/// of `s` holds a defined value.
pub open spec fn spec_super_block_csum_type_valid(s: Seq<u8>) -> bool {
    ChecksumType::spec_from_value(spec_u16_from_le_bytes(s.subrange(196, 198))) is Some
}

/// The superblock whose encoding starts at byte 0 of `s`. The reserved
/// and unused regions are skipped.
pub open spec fn spec_super_block(s: Seq<u8>) -> SuperBlockView
    recommends
        s.len() >= SUPER_BLOCK_SIZE,
        spec_super_block_csum_type_valid(s),
{
    SuperBlockView {
        csum: s.subrange(0, 32),
        fsid: s.subrange(32, 48),
        bytenr: spec_u64_from_le_bytes(s.subrange(48, 56)),
        flags: spec_u64_from_le_bytes(s.subrange(56, 64)),
        magic: spec_u64_from_le_bytes(s.subrange(64, 72)),
        generation: spec_u64_from_le_bytes(s.subrange(72, 80)),
        root: spec_u64_from_le_bytes(s.subrange(80, 88)),
        chunk_root: spec_u64_from_le_bytes(s.subrange(88, 96)),
        log_root: spec_u64_from_le_bytes(s.subrange(96, 104)),
        log_root_transid: spec_u64_from_le_bytes(s.subrange(104, 112)),
        total_bytes: spec_u64_from_le_bytes(s.subrange(112, 120)),
        bytes_used: spec_u64_from_le_bytes(s.subrange(120, 128)),
        root_dir_objectid: spec_u64_from_le_bytes(s.subrange(128, 136)),
        num_devices: spec_u64_from_le_bytes(s.subrange(136, 144)),
        sectorsize: spec_u32_from_le_bytes(s.subrange(144, 148)),
        nodesize: spec_u32_from_le_bytes(s.subrange(148, 152)),
        leafsize: spec_u32_from_le_bytes(s.subrange(152, 156)),
        stripesize: spec_u32_from_le_bytes(s.subrange(156, 160)),
        sys_chunk_array_size: spec_u32_from_le_bytes(s.subrange(160, 164)),
        chunk_root_generation: spec_u64_from_le_bytes(s.subrange(164, 172)),
        compat_flags: spec_u64_from_le_bytes(s.subrange(172, 180)),
        compat_ro_flags: spec_u64_from_le_bytes(s.subrange(180, 188)),
        incompat_flags: spec_u64_from_le_bytes(s.subrange(188, 196)),
        csum_type: ChecksumType::spec_from_value(spec_u16_from_le_bytes(s.subrange(196, 198)))->0,
        root_level: s[198],
        chunk_root_level: s[199],
        log_root_level: s[200],
        dev_item: spec_dev_item_at(s, 201),
        label: s.subrange(299, 555),
        cache_generation: spec_u64_from_le_bytes(s.subrange(555, 563)),
        uuid_tree_generation: spec_u64_from_le_bytes(s.subrange(563, 571)),
        sys_chunk_array: s.subrange(811, 2859),
        super_roots: Seq::new(
            NUM_BACKUP_ROOTS as nat,
            |i: int| spec_root_backup_at(s, SUPER_BLOCK_ROOTS_OFFSET + i * ROOT_BACKUP_SIZE),
        ),
    }
}

impl SuperBlock {
    /// Decodes a superblock from the front of `bytes`; trailing bytes are
    /// ignored. The magic field is checked first — any other value means
    /// the buffer holds some other format — and then the checksum type is
    /// validated against the closed enumeration.
    pub fn from_bytes(bytes: &[u8]) -> (r: Result<SuperBlock, DecodeError>)
        ensures
            bytes@.len() < SUPER_BLOCK_SIZE ==> r == Err::<SuperBlock, DecodeError>(
                DecodeError::OutOfBounds,
            ),
            bytes@.len() >= SUPER_BLOCK_SIZE && !spec_super_block_magic_ok(bytes@) ==> r == Err::<
                SuperBlock,
                DecodeError,
            >(DecodeError::InvalidMagic),
            bytes@.len() >= SUPER_BLOCK_SIZE && spec_super_block_magic_ok(bytes@)
                && !spec_super_block_csum_type_valid(bytes@) ==> r == Err::<
                SuperBlock,
                DecodeError,
            >(DecodeError::UnknownRecordTag),
            bytes@.len() >= SUPER_BLOCK_SIZE && spec_super_block_magic_ok(bytes@)
                && spec_super_block_csum_type_valid(bytes@) ==> (r matches Ok(sb) && sb@
                == spec_super_block(bytes@)),
    {
        let _n: usize = bytes.len();
        if bytes.len() < SUPER_BLOCK_SIZE {
            return Err(DecodeError::OutOfBounds);
        }
        let magic = read_u64_at(bytes, SUPER_BLOCK_MAGIC_OFFSET);
        if magic != MAGIC {
            return Err(DecodeError::InvalidMagic);
        }
        let csum_type = match ChecksumType::from_value(read_u16_at(bytes, 196)) {
            Some(c) => c,
            None => { return Err(DecodeError::UnknownRecordTag) },
        };
        let mut super_roots: Vec<RootBackup> = Vec::new();
        super_roots.push(RootBackup::decode_at(bytes, SUPER_BLOCK_ROOTS_OFFSET));
        super_roots.push(RootBackup::decode_at(bytes, SUPER_BLOCK_ROOTS_OFFSET + 168));
        super_roots.push(RootBackup::decode_at(bytes, SUPER_BLOCK_ROOTS_OFFSET + 336));
        super_roots.push(RootBackup::decode_at(bytes, SUPER_BLOCK_ROOTS_OFFSET + 504));
        proof {
            assert(super_roots@ =~= Seq::new(
                NUM_BACKUP_ROOTS as nat,
                |i: int| spec_root_backup_at(
                    bytes@,
                    SUPER_BLOCK_ROOTS_OFFSET + i * ROOT_BACKUP_SIZE,
                ),
            ));
        }
        Ok(
            SuperBlock {
                csum: read_bytes_at(bytes, 0, CSUM_SIZE),
                fsid: read_bytes_at(bytes, 32, FSID_SIZE),
                bytenr: read_u64_at(bytes, 48),
                flags: read_u64_at(bytes, 56),
                magic,
                generation: read_u64_at(bytes, 72),
                root: read_u64_at(bytes, 80),
                chunk_root: read_u64_at(bytes, 88),
                log_root: read_u64_at(bytes, 96),
                log_root_transid: read_u64_at(bytes, 104),
                total_bytes: read_u64_at(bytes, 112),
                bytes_used: read_u64_at(bytes, 120),
                root_dir_objectid: read_u64_at(bytes, 128),
                num_devices: read_u64_at(bytes, 136),
                sectorsize: read_u32_at(bytes, 144),
                nodesize: read_u32_at(bytes, 148),
                leafsize: read_u32_at(bytes, 152),
                stripesize: read_u32_at(bytes, 156),
                sys_chunk_array_size: read_u32_at(bytes, 160),
                chunk_root_generation: read_u64_at(bytes, 164),
                compat_flags: read_u64_at(bytes, 172),
                compat_ro_flags: read_u64_at(bytes, 180),
                incompat_flags: read_u64_at(bytes, 188),
                csum_type,
                root_level: read_u8_at(bytes, 198),
                chunk_root_level: read_u8_at(bytes, 199),
                log_root_level: read_u8_at(bytes, 200),
                dev_item: DevItem::decode_at(bytes, 201),
                label: read_bytes_at(bytes, 299, LABEL_SIZE),
                cache_generation: read_u64_at(bytes, 555),
                uuid_tree_generation: read_u64_at(bytes, 563),
                sys_chunk_array: read_bytes_at(bytes, 811, MAX_SYSTEM_CHUNK_ARRAY_SIZE),
                super_roots,
            },
        )
    }
}

} // verus!

use btrfs_layout::block_group::{BlockGroupItem, BLOCK_GROUP_ITEM_SIZE};
use btrfs_layout::dev_extent::{DevExtent, DEV_EXTENT_SIZE};
use btrfs_layout::dev_item::{DevItem, DEV_ITEM_SIZE};
use btrfs_layout::error::DecodeError;
use btrfs_layout::inode_item::{InodeItem, INODE_ITEM_SIZE, INODE_READ_ONLY};
use btrfs_layout::root_backup::{RootBackup, ROOT_BACKUP_SIZE};
use btrfs_layout::root_item::{RootItem, ROOT_ITEM_SIZE};
use btrfs_layout::root_ref::{RootRef, ROOT_REF_SIZE};
use btrfs_layout::super_block::{ChecksumType, SuperBlock, SUPER_BLOCK_SIZE};
use btrfs_layout::time::{Time, TIME_SIZE};

fn put64(out: &mut Vec<u8>, x: u64) {
    out.extend_from_slice(&x.to_le_bytes());
}

fn put32(out: &mut Vec<u8>, x: u32) {
    out.extend_from_slice(&x.to_le_bytes());
}

fn put16(out: &mut Vec<u8>, x: u16) {
    out.extend_from_slice(&x.to_le_bytes());
}

#[test]
fn time_decode() {
    let mut buf: Vec<u8> = Vec::new();
    buf.extend_from_slice(&(-2i64).to_le_bytes());
    put32(&mut buf, 999_999_999);
    let t = Time::from_bytes(&buf).unwrap();
    assert_eq!(t, Time { timestamp: -2, nanoseconds: 999_999_999 });
    assert_eq!(Time::from_bytes(&buf[..TIME_SIZE - 1]), Err(DecodeError::OutOfBounds));
}

#[test]
fn dev_extent_decode() {
    let mut buf: Vec<u8> = Vec::new();
    put64(&mut buf, 3); // chunk_tree
    put64(&mut buf, 256); // chunk_objectid
    put64(&mut buf, 0x100000); // chunk_offset
    put64(&mut buf, 0x4000000); // length
    buf.extend_from_slice(&[7u8; 16]); // chunk_tree_uuid
    assert_eq!(buf.len(), DEV_EXTENT_SIZE);
    let d = DevExtent::from_bytes(&buf).unwrap();
    assert_eq!(d.chunk_tree, 3);
    assert_eq!(d.chunk_objectid, 256);
    assert_eq!(d.chunk_offset, 0x100000);
    assert_eq!(d.length, 0x4000000);
    assert_eq!(d.chunk_tree_uuid, vec![7u8; 16]);
    assert_eq!(DevExtent::from_bytes(&buf[..47]), Err(DecodeError::OutOfBounds));
}

#[test]
fn block_group_item_decode() {
    let mut buf: Vec<u8> = Vec::new();
    put64(&mut buf, 123456);
    put64(&mut buf, 256);
    put64(&mut buf, 0x11);
    assert_eq!(buf.len(), BLOCK_GROUP_ITEM_SIZE);
    let b = BlockGroupItem::from_bytes(&buf).unwrap();
    assert_eq!(b, BlockGroupItem { used: 123456, chunk_objectid: 256, flags: 0x11 });
}

fn sample_dev_item_bytes() -> Vec<u8> {
    let mut buf: Vec<u8> = Vec::new();
    put64(&mut buf, 1); // devid
    put64(&mut buf, 1 << 30); // total_bytes
    put64(&mut buf, 1 << 20); // bytes_used
    put32(&mut buf, 4096); // io_align
    put32(&mut buf, 4096); // io_width
    put32(&mut buf, 512); // sector_size
    put64(&mut buf, 0); // dev_type
    put64(&mut buf, 9); // generation
    put64(&mut buf, 0); // start_offset
    put32(&mut buf, 0); // dev_group
    buf.push(50); // seek_speed
    buf.push(60); // bandwith
    buf.extend_from_slice(&[0xAB; 16]); // uuid
    buf.extend_from_slice(&[0xCD; 16]); // fsid
    buf
}

#[test]
fn dev_item_decode() {
    let buf = sample_dev_item_bytes();
    assert_eq!(buf.len(), DEV_ITEM_SIZE);
    let d = DevItem::from_bytes(&buf).unwrap();
    assert_eq!(d.devid, 1);
    assert_eq!(d.total_bytes, 1 << 30);
    assert_eq!(d.bytes_used, 1 << 20);
    assert_eq!(d.sector_size, 512);
    assert_eq!(d.generation, 9);
    assert_eq!(d.seek_speed, 50);
    assert_eq!(d.bandwith, 60);
    assert_eq!(d.uuid, vec![0xAB; 16]);
    assert_eq!(d.fsid, vec![0xCD; 16]);
    assert_eq!(DevItem::from_bytes(&buf[..DEV_ITEM_SIZE - 1]), Err(DecodeError::OutOfBounds));
}

fn sample_inode_item_bytes() -> Vec<u8> {
    let mut buf: Vec<u8> = Vec::new();
    put64(&mut buf, 5); // generation
    put64(&mut buf, 6); // transid
    put64(&mut buf, 4096); // size
    put64(&mut buf, 8192); // nbytes
    put64(&mut buf, 0); // block_group
    put32(&mut buf, 1); // nlink
    put32(&mut buf, 1000); // uid
    put32(&mut buf, 1000); // gid
    put32(&mut buf, 0o100644); // mode
    put64(&mut buf, 0); // rdev
    put64(&mut buf, INODE_READ_ONLY); // flags
    put64(&mut buf, 3); // sequence
    buf.extend_from_slice(&[0u8; 32]); // reserved
    for i in 0..4u32 {
        // atime, ctime, mtime, otime
        buf.extend_from_slice(&(1_600_000_000i64 + i as i64).to_le_bytes());
        put32(&mut buf, i);
    }
    buf
}

#[test]
fn inode_item_decode() {
    let buf = sample_inode_item_bytes();
    assert_eq!(buf.len(), INODE_ITEM_SIZE);
    let ino = InodeItem::from_bytes(&buf).unwrap();
    assert_eq!(ino.generation, 5);
    assert_eq!(ino.size, 4096);
    assert_eq!(ino.mode, 0o100644);
    assert_eq!(ino.flags, INODE_READ_ONLY);
    assert_eq!(ino.atime, Time { timestamp: 1_600_000_000, nanoseconds: 0 });
    assert_eq!(ino.otime, Time { timestamp: 1_600_000_003, nanoseconds: 3 });
    assert_eq!(
        InodeItem::from_bytes(&buf[..INODE_ITEM_SIZE - 1]),
        Err(DecodeError::OutOfBounds)
    );
}

#[test]
fn root_backup_decode() {
    let mut buf: Vec<u8> = Vec::new();
    for i in 0..15u64 {
        put64(&mut buf, 100 + i);
    }
    buf.extend_from_slice(&[0u8; 32]); // reserved
    for i in 0..6u8 {
        buf.push(i);
    }
    buf.extend_from_slice(&[0u8; 10]); // reserved
    assert_eq!(buf.len(), ROOT_BACKUP_SIZE);
    let rb = RootBackup::from_bytes(&buf).unwrap();
    assert_eq!(rb.tree_root, 100);
    assert_eq!(rb.tree_root_gen, 101);
    assert_eq!(rb.num_devices, 114);
    assert_eq!(rb.tree_root_level, 0);
    assert_eq!(rb.csum_root_level, 5);
}

#[test]
fn root_item_decode() {
    let mut buf: Vec<u8> = Vec::new();
    buf.extend_from_slice(&sample_inode_item_bytes());
    put64(&mut buf, 42); // generation
    put64(&mut buf, 256); // root_dirid
    put64(&mut buf, 0x200000); // bytenr
    put64(&mut buf, 0); // byte_limit
    put64(&mut buf, 0); // bytes_used
    put64(&mut buf, 40); // last_snapshot
    put64(&mut buf, 0); // flags
    put32(&mut buf, 1); // refs
    put64(&mut buf, 9); // drop_progress.objectid
    buf.push(0x54); // drop_progress.key_type
    put64(&mut buf, 77); // drop_progress.offset
    buf.push(2); // drop_level
    buf.push(1); // level
    put64(&mut buf, 42); // generation_v2
    buf.extend_from_slice(&[0x11; 16]); // uuid
    buf.extend_from_slice(&[0x22; 16]); // parent_uuid
    buf.extend_from_slice(&[0x33; 16]); // received_uuid
    put64(&mut buf, 1); // ctransid
    put64(&mut buf, 2); // otransid
    put64(&mut buf, 3); // stransid
    put64(&mut buf, 4); // rtransid
    for i in 0..4u32 {
        // ctime, otime, stime, rtime
        buf.extend_from_slice(&(1_700_000_000i64 + i as i64).to_le_bytes());
        put32(&mut buf, 0);
    }
    buf.extend_from_slice(&[0u8; 64]); // reserved
    assert_eq!(buf.len(), ROOT_ITEM_SIZE);
    let ri = RootItem::from_bytes(&buf).unwrap();
    assert_eq!(ri.inode.generation, 5);
    assert_eq!(ri.generation, 42);
    assert_eq!(ri.bytenr, 0x200000);
    assert_eq!(ri.drop_progress.objectid, 9);
    assert_eq!(ri.drop_progress.key_type, 0x54);
    assert_eq!(ri.drop_progress.offset, 77);
    assert_eq!(ri.level, 1);
    assert_eq!(ri.uuid, vec![0x11; 16]);
    assert_eq!(ri.rtime, Time { timestamp: 1_700_000_003, nanoseconds: 0 });
    assert_eq!(
        RootItem::from_bytes(&buf[..ROOT_ITEM_SIZE - 1]),
        Err(DecodeError::OutOfBounds)
    );
}

#[test]
fn root_ref_decode_with_name() {
    let mut buf: Vec<u8> = Vec::new();
    put64(&mut buf, 256); // dirid
    put64(&mut buf, 7); // sequence
    put16(&mut buf, 4); // name_len
    buf.extend_from_slice(b"home");
    let (rr, name) = RootRef::from_bytes_with_name(&buf).unwrap();
    assert_eq!(rr, RootRef { dirid: 256, sequence: 7, name_len: 4 });
    assert_eq!(name, b"home".to_vec());
    // The name may be followed by unrelated bytes.
    buf.push(0xEE);
    let (_, name2) = RootRef::from_bytes_with_name(&buf).unwrap();
    assert_eq!(name2, b"home".to_vec());
    // A name cut short is refused, not truncated.
    assert_eq!(
        RootRef::from_bytes_with_name(&buf[..ROOT_REF_SIZE + 3]),
        Err(DecodeError::TruncatedRecord)
    );
    assert_eq!(
        RootRef::from_bytes_with_name(&buf[..ROOT_REF_SIZE - 1]),
        Err(DecodeError::OutOfBounds)
    );
}

fn sample_super_block_bytes() -> Vec<u8> {
    let mut buf: Vec<u8> = vec![0u8; SUPER_BLOCK_SIZE];
    buf[64..72].copy_from_slice(&[0x5F, 0x42, 0x48, 0x52, 0x66, 0x53, 0x5F, 0x4D]);
    buf[72..80].copy_from_slice(&99u64.to_le_bytes()); // generation
    buf[80..88].copy_from_slice(&0x400000u64.to_le_bytes()); // root
    buf[144..148].copy_from_slice(&4096u32.to_le_bytes()); // sectorsize
    buf[196..198].copy_from_slice(&2u16.to_le_bytes()); // csum_type: SHA256
    buf[201..209].copy_from_slice(&1u64.to_le_bytes()); // dev_item.devid
    buf[299..303].copy_from_slice(b"data"); // label
    buf[2859..2867].copy_from_slice(&5u64.to_le_bytes()); // super_roots[0].tree_root
    buf[3027..3035].copy_from_slice(&6u64.to_le_bytes()); // super_roots[1].tree_root
    buf
}

#[test]
fn super_block_decode() {
    let buf = sample_super_block_bytes();
    let sb = SuperBlock::from_bytes(&buf).unwrap();
    assert_eq!(sb.magic, btrfs_layout::MAGIC);
    assert_eq!(sb.generation, 99);
    assert_eq!(sb.root, 0x400000);
    assert_eq!(sb.sectorsize, 4096);
    assert_eq!(sb.csum_type, ChecksumType::SHA256);
    assert_eq!(sb.dev_item.devid, 1);
    assert_eq!(&sb.label[..4], b"data");
    assert_eq!(sb.super_roots.len(), 4);
    assert_eq!(sb.super_roots[0].tree_root, 5);
    assert_eq!(sb.super_roots[1].tree_root, 6);
    assert_eq!(sb.super_roots[2].tree_root, 0);
}

#[test]
fn super_block_wrong_magic() {
    let mut buf = sample_super_block_bytes();
    buf[64] = 0x5E;
    assert_eq!(SuperBlock::from_bytes(&buf), Err(DecodeError::InvalidMagic));
    let zeroed: Vec<u8> = vec![0u8; SUPER_BLOCK_SIZE];
    assert_eq!(SuperBlock::from_bytes(&zeroed), Err(DecodeError::InvalidMagic));
}

#[test]
fn super_block_short_buffer() {
    let buf = sample_super_block_bytes();
    assert_eq!(
        SuperBlock::from_bytes(&buf[..SUPER_BLOCK_SIZE - 1]),
        Err(DecodeError::OutOfBounds)
    );
}

#[test]
fn super_block_unknown_csum_type() {
    let mut buf = sample_super_block_bytes();
    buf[196..198].copy_from_slice(&4u16.to_le_bytes());
    assert_eq!(SuperBlock::from_bytes(&buf), Err(DecodeError::UnknownRecordTag));
}

#[test]
fn checksum_type_closed_set() {
    assert_eq!(ChecksumType::from_value(0), Some(ChecksumType::CRC32C));
    assert_eq!(ChecksumType::from_value(1), Some(ChecksumType::XXHASH64));
    assert_eq!(ChecksumType::from_value(2), Some(ChecksumType::SHA256));
    assert_eq!(ChecksumType::from_value(3), Some(ChecksumType::BLAKE2b));
    assert_eq!(ChecksumType::from_value(4), None);
    assert_eq!(ChecksumType::CRC32C.value(), 0);
    assert_eq!(ChecksumType::BLAKE2b.value(), 3);
}

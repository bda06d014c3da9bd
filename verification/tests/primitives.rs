use btrfs_layout::block_group::{
    block_group_flags_valid, BlockGroupItem, BLOCK_GROUP_DATA, BLOCK_GROUP_METADATA,
    BLOCK_GROUP_RAID1, BLOCK_GROUP_SYSTEM,
};
use btrfs_layout::codec::{read_bytes, read_i64, read_u16, read_u32, read_u64, read_u8};
use btrfs_layout::error::DecodeError;
use btrfs_layout::key::{Key, KEY_SIZE};
use btrfs_layout::object_id::{
    ObjectId, ReservedObjectId, FIRST_FREE_OBJECT_ID, LAST_FREE_OBJECT_ID,
};
use btrfs_layout::{
    superblock_addrs, MAGIC, PRIMARY_SUPERBLOCK_ADDR, SECONDARY_SUPERBLOCK_ADDR,
    TERTIARY_SUPERBLOCK_ADDR,
};
use core::cmp::Ordering;

#[test]
fn read_integers_little_endian() {
    let bytes: Vec<u8> = vec![0x01, 0x02, 0x03, 0x04, 0x05, 0x06, 0x07, 0x08, 0xFF];
    assert_eq!(read_u8(&bytes, 0), Ok(0x01));
    assert_eq!(read_u8(&bytes, 8), Ok(0xFF));
    assert_eq!(read_u16(&bytes, 0), Ok(0x0201));
    assert_eq!(read_u16(&bytes, 1), Ok(0x0302));
    assert_eq!(read_u32(&bytes, 0), Ok(0x04030201));
    assert_eq!(read_u64(&bytes, 0), Ok(0x0807060504030201));
    assert_eq!(read_u64(&bytes, 1), Ok(0xFF08070605040302));
}

#[test]
fn read_integers_out_of_bounds() {
    let bytes: Vec<u8> = vec![0x01, 0x02, 0x03];
    assert_eq!(read_u8(&bytes, 3), Err(DecodeError::OutOfBounds));
    assert_eq!(read_u16(&bytes, 2), Err(DecodeError::OutOfBounds));
    assert_eq!(read_u32(&bytes, 0), Err(DecodeError::OutOfBounds));
    assert_eq!(read_u64(&bytes, 0), Err(DecodeError::OutOfBounds));
    assert_eq!(read_i64(&bytes, 0), Err(DecodeError::OutOfBounds));
    assert!(read_bytes(&bytes, 1, 3).is_err());
}

#[test]
fn read_i64_two_s_complement() {
    let minus_one: Vec<u8> = vec![0xFF; 8];
    assert_eq!(read_i64(&minus_one, 0), Ok(-1));
    let min: Vec<u8> = vec![0x00, 0x00, 0x00, 0x00, 0x00, 0x00, 0x00, 0x80];
    assert_eq!(read_i64(&min, 0), Ok(i64::MIN));
    let plain: Vec<u8> = vec![0x2A, 0x00, 0x00, 0x00, 0x00, 0x00, 0x00, 0x00];
    assert_eq!(read_i64(&plain, 0), Ok(42));
}

#[test]
fn read_bytes_copies_range() {
    let bytes: Vec<u8> = vec![9, 8, 7, 6, 5];
    let mid = read_bytes(&bytes, 1, 3).unwrap();
    assert_eq!(mid, vec![8, 7, 6]);
}

#[test]
fn key_round_trip() {
    let k = Key { objectid: 0x1122334455667788, key_type: 0xA4, offset: 0x99AABBCCDDEEFF00 };
    let encoded = k.encode();
    assert_eq!(encoded.len(), KEY_SIZE);
    assert_eq!(encoded[8], 0xA4);
    assert_eq!(encoded[0], 0x88);
    let decoded = Key::from_bytes(&encoded).unwrap();
    assert_eq!(decoded, k);
}

#[test]
fn key_from_short_buffer_is_out_of_bounds() {
    let bytes: Vec<u8> = vec![0; KEY_SIZE - 1];
    assert_eq!(Key::from_bytes(&bytes), Err(DecodeError::OutOfBounds));
}

#[test]
fn key_ordering_offset_dominated() {
    let a = Key { objectid: 5, key_type: 1, offset: 0 };
    let b = Key { objectid: 5, key_type: 1, offset: 100 };
    assert_eq!(b.compare(&a), Ordering::Greater);
    assert_eq!(a.compare(&b), Ordering::Less);
    assert_eq!(a.compare(&a), Ordering::Equal);
}

#[test]
fn key_ordering_objectid_dominates() {
    let a = Key { objectid: 4, key_type: 9, offset: 0 };
    let b = Key { objectid: 5, key_type: 0, offset: 0 };
    assert_eq!(b.compare(&a), Ordering::Greater);
    assert_eq!(a.compare(&b), Ordering::Less);
}

#[test]
fn key_ordering_type_before_offset() {
    let a = Key { objectid: 7, key_type: 1, offset: 100 };
    let b = Key { objectid: 7, key_type: 2, offset: 0 };
    assert_eq!(b.compare(&a), Ordering::Greater);
}

#[test]
fn reserved_object_id_membership() {
    assert!(ObjectId(1).is_valid_reserved());
    assert!(!ObjectId(255).is_valid_reserved());
    assert!(ObjectId(0).is_valid_reserved());
    assert!(ObjectId(10).is_valid_reserved());
    assert!(!ObjectId(11).is_valid_reserved());
    assert!(ObjectId(0xFFFF_FFFF_FFFF_FFFC).is_valid_reserved());
    assert!(!ObjectId(0xFFFF_FFFF_FFFF_FFFD).is_valid_reserved());
}

#[test]
fn reserved_object_id_values() {
    assert_eq!(ReservedObjectId::RootTree.value(), 1);
    assert_eq!(ReservedObjectId::Balance.value(), (-4i64) as u64);
    assert_eq!(ReservedObjectId::ExtentChecksum.value(), (-10i64) as u64);
    assert_eq!(ReservedObjectId::MultipleObjectIds.value(), (-255i64) as u64);
    assert_eq!(ReservedObjectId::from_value(1), Some(ReservedObjectId::RootTree));
    assert_eq!(
        ReservedObjectId::from_value((-10i64) as u64),
        Some(ReservedObjectId::ExtentChecksum)
    );
    assert_eq!(ReservedObjectId::from_value(255), None);
    assert_eq!(ReservedObjectId::from_value(11), None);
}

#[test]
fn object_id_free_range() {
    assert!(!ObjectId(FIRST_FREE_OBJECT_ID - 1).is_in_free_range());
    assert!(ObjectId(FIRST_FREE_OBJECT_ID).is_in_free_range());
    assert!(ObjectId(1000).is_in_free_range());
    assert!(ObjectId(LAST_FREE_OBJECT_ID).is_in_free_range());
    assert!(!ObjectId(LAST_FREE_OBJECT_ID + 1).is_in_free_range());
}

#[test]
fn object_id_conversions() {
    let id = ObjectId::from(77u64);
    assert_eq!(id, ObjectId(77));
    assert_eq!(u64::from(id), 77);
}

#[test]
fn block_group_flag_combinations() {
    assert!(block_group_flags_valid(BLOCK_GROUP_DATA | BLOCK_GROUP_RAID1));
    assert!(!block_group_flags_valid(BLOCK_GROUP_SYSTEM | BLOCK_GROUP_DATA));
    assert!(!block_group_flags_valid(BLOCK_GROUP_SYSTEM | BLOCK_GROUP_METADATA));
    assert!(block_group_flags_valid(BLOCK_GROUP_SYSTEM | BLOCK_GROUP_RAID1));
    assert!(block_group_flags_valid(BLOCK_GROUP_DATA | BLOCK_GROUP_METADATA));
    assert!(block_group_flags_valid(BLOCK_GROUP_DATA));
    // An undefined bit is rejected whatever else is set.
    assert!(!block_group_flags_valid(BLOCK_GROUP_DATA | 0x800));
}

#[test]
fn block_group_item_validation() {
    let good = BlockGroupItem {
        used: 0,
        chunk_objectid: 256,
        flags: BLOCK_GROUP_DATA | BLOCK_GROUP_RAID1,
    };
    assert!(good.flags_valid());
    let bad = BlockGroupItem {
        used: 0,
        chunk_objectid: 256,
        flags: BLOCK_GROUP_SYSTEM | BLOCK_GROUP_DATA,
    };
    assert!(!bad.flags_valid());
}

#[test]
fn superblock_addresses() {
    assert_eq!(PRIMARY_SUPERBLOCK_ADDR, 0x10000);
    assert_eq!(
        superblock_addrs(),
        vec![
            PRIMARY_SUPERBLOCK_ADDR,
            SECONDARY_SUPERBLOCK_ADDR,
            TERTIARY_SUPERBLOCK_ADDR
        ]
    );
    assert_eq!(MAGIC, 0x4D5F53665248425F);
}

use btrfs_layout::chunk::{Chunk, ChunkDynamic, Stripe, CHUNK_SIZE, STRIPE_SIZE};
use btrfs_layout::dynamic::dynamic_tail_bounds;
use btrfs_layout::error::DecodeError;
use btrfs_layout::extent_ref::{
    ExtentDataRef, ExtentInlineRef, ExtentInlineRefHeader, ExtentInlineRefSharedDataTail,
    ExtentInlineRefType, SharedDataRef, EXTENT_DATA_REF_SIZE, EXTENT_DATA_REF_TAG,
    SHARED_BLOCK_REF_TAG, SHARED_DATA_REF_TAG, TREE_BLOCK_REF_TAG,
};
use btrfs_layout::node::{
    BackrefRevision, Header, Item, KeyPointer, Node, NodeBody, HEADER_SIZE, ITEM_SIZE,
    KEY_POINTER_SIZE,
};

fn sample_refs() -> Vec<ExtentInlineRef> {
    vec![
        ExtentInlineRef::TreeBlockRef { offset: 0x0102030405060708 },
        ExtentInlineRef::ExtentDataRef {
            extent_data_ref: ExtentDataRef {
                root: 5,
                objectid: 257,
                offset: 0x1000,
                count: 3,
            },
        },
        ExtentInlineRef::SharedBlockRef { offset: 0xDEAD_BEEF },
        ExtentInlineRef::SharedDataRef {
            shared_data_tail: ExtentInlineRefSharedDataTail {
                offset: 0xCAFE,
                shared_data_ref: SharedDataRef { count: 9 },
            },
        },
    ]
}

#[test]
fn inline_ref_round_trip_all_variants() {
    for r in sample_refs() {
        let encoded = r.encode();
        assert_eq!(encoded.len(), r.encoded_len());
        let decoded = ExtentInlineRef::from_bytes(&encoded).unwrap();
        assert_eq!(decoded, r);
    }
}

#[test]
fn inline_ref_encoded_lengths() {
    let refs = sample_refs();
    assert_eq!(refs[0].encoded_len(), 9);
    assert_eq!(refs[1].encoded_len(), 29);
    assert_eq!(refs[2].encoded_len(), 9);
    assert_eq!(refs[3].encoded_len(), 13);
}

#[test]
fn inline_ref_accessors_match_variant() {
    let refs = sample_refs();
    assert_eq!(refs[0].offset(), Some(0x0102030405060708));
    assert_eq!(refs[1].offset(), None);
    assert_eq!(refs[2].offset(), Some(0xDEAD_BEEF));
    assert_eq!(refs[3].offset(), Some(0xCAFE));

    assert!(refs[0].extent_data_ref().is_none());
    let edr = refs[1].extent_data_ref().unwrap();
    assert_eq!(edr.root, 5);
    assert_eq!(edr.count, 3);
    assert!(refs[1].shared_data_tail().is_none());
    let tail = refs[3].shared_data_tail().unwrap();
    assert_eq!(tail.offset, 0xCAFE);
    assert_eq!(tail.shared_data_ref.count, 9);

    assert_eq!(refs[0].as_tree_block_ref().unwrap().offset, 0x0102030405060708);
    assert!(refs[0].as_shared_block_ref().is_none());
    assert_eq!(refs[2].as_shared_block_ref().unwrap().offset, 0xDEAD_BEEF);
    assert!(refs[2].as_extent_data_ref().is_none());
    assert_eq!(refs[1].as_extent_data_ref().unwrap().extent_data_ref.objectid, 257);
    assert!(refs[1].as_shared_data_ref().is_none());
    assert_eq!(
        refs[3].as_shared_data_ref().unwrap().shared_data_tail.shared_data_ref.count,
        9
    );

    assert_eq!(refs[0].ref_type(), ExtentInlineRefType::TreeBlockRef);
    assert_eq!(refs[1].ref_type(), ExtentInlineRefType::ExtentDataRef);
    assert_eq!(refs[2].ref_type(), ExtentInlineRefType::SharedBlockRef);
    assert_eq!(refs[3].ref_type(), ExtentInlineRefType::SharedDataRef);
}

#[test]
fn inline_ref_unknown_tag_fails_whatever_the_length() {
    for tag in [0u8, 1, 175, 177, 179, 181, 183, 185, 255] {
        assert_eq!(
            ExtentInlineRef::decode_tagged(tag, &[]),
            Err(DecodeError::UnknownRecordTag)
        );
        let long: Vec<u8> = vec![0u8; 64];
        assert_eq!(
            ExtentInlineRef::decode_tagged(tag, &long),
            Err(DecodeError::UnknownRecordTag)
        );
        let mut whole: Vec<u8> = vec![tag];
        whole.extend_from_slice(&long);
        assert_eq!(
            ExtentInlineRef::from_bytes(&whole),
            Err(DecodeError::UnknownRecordTag)
        );
    }
}

#[test]
fn inline_ref_tag_values() {
    assert_eq!(TREE_BLOCK_REF_TAG, 176);
    assert_eq!(EXTENT_DATA_REF_TAG, 178);
    assert_eq!(SHARED_BLOCK_REF_TAG, 182);
    assert_eq!(SHARED_DATA_REF_TAG, 184);
    assert_eq!(
        ExtentInlineRefType::from_tag(176),
        Some(ExtentInlineRefType::TreeBlockRef)
    );
    assert_eq!(ExtentInlineRefType::from_tag(180), None);
    assert_eq!(ExtentInlineRefType::SharedDataRef.tag(), 184);
}

#[test]
fn extent_data_ref_exact_length_boundaries() {
    let body: Vec<u8> = (0u8..EXTENT_DATA_REF_SIZE as u8 + 4).collect();
    // 28 bytes exactly: succeeds.
    let r = ExtentInlineRef::decode_tagged(EXTENT_DATA_REF_TAG, &body[..28]).unwrap();
    let edr = r.extent_data_ref().unwrap();
    assert_eq!(edr.root, 0x0706050403020100);
    assert_eq!(edr.count, u32::from_le_bytes([24, 25, 26, 27]));
    // 27 bytes: truncated.
    assert_eq!(
        ExtentInlineRef::decode_tagged(EXTENT_DATA_REF_TAG, &body[..27]),
        Err(DecodeError::TruncatedRecord)
    );
    // 29 and more: succeeds and ignores the trailing bytes.
    let r29 = ExtentInlineRef::decode_tagged(EXTENT_DATA_REF_TAG, &body[..29]).unwrap();
    assert_eq!(r29, r);
    let r32 = ExtentInlineRef::decode_tagged(EXTENT_DATA_REF_TAG, &body).unwrap();
    assert_eq!(r32, r);
}

#[test]
fn inline_ref_truncation_boundaries() {
    assert_eq!(
        ExtentInlineRef::decode_tagged(TREE_BLOCK_REF_TAG, &[0u8; 7]),
        Err(DecodeError::TruncatedRecord)
    );
    assert!(ExtentInlineRef::decode_tagged(TREE_BLOCK_REF_TAG, &[0u8; 8]).is_ok());
    assert_eq!(
        ExtentInlineRef::decode_tagged(SHARED_DATA_REF_TAG, &[0u8; 11]),
        Err(DecodeError::TruncatedRecord)
    );
    assert!(ExtentInlineRef::decode_tagged(SHARED_DATA_REF_TAG, &[0u8; 12]).is_ok());
    assert_eq!(ExtentInlineRef::from_bytes(&[]), Err(DecodeError::OutOfBounds));
    assert_eq!(
        ExtentInlineRef::from_bytes(&[SHARED_BLOCK_REF_TAG]),
        Err(DecodeError::TruncatedRecord)
    );
}

#[test]
fn inline_ref_header_decode() {
    let mut buf: Vec<u8> = vec![TREE_BLOCK_REF_TAG];
    buf.extend_from_slice(&0x1234u64.to_le_bytes());
    let h = ExtentInlineRefHeader::from_bytes(&buf).unwrap();
    assert_eq!(h.ref_type, ExtentInlineRefType::TreeBlockRef);
    assert_eq!(h.offset, 0x1234);
    assert_eq!(
        ExtentInlineRefHeader::from_bytes(&buf[..8]),
        Err(DecodeError::TruncatedRecord)
    );
    assert_eq!(
        ExtentInlineRefHeader::from_bytes(&[99u8, 0, 0, 0, 0, 0, 0, 0, 0]),
        Err(DecodeError::UnknownRecordTag)
    );
    assert_eq!(ExtentInlineRefHeader::from_bytes(&[]), Err(DecodeError::OutOfBounds));
}

#[test]
fn extent_data_ref_standalone_decode() {
    let edr = ExtentDataRef { root: 1, objectid: 2, offset: 3, count: 4 };
    let encoded = edr.encode();
    assert_eq!(encoded.len(), EXTENT_DATA_REF_SIZE);
    assert_eq!(ExtentDataRef::from_bytes(&encoded), Ok(edr));
    assert_eq!(
        ExtentDataRef::from_bytes(&encoded[..27]),
        Err(DecodeError::OutOfBounds)
    );
    assert_eq!(SharedDataRef::from_bytes(&[5, 0, 0, 0]), Ok(SharedDataRef { count: 5 }));
}

fn sample_chunk() -> Chunk {
    Chunk {
        length: 0x4000000,
        owner: 2,
        stripe_len: 0x10000,
        chunk_type: 0x11,
        io_align: 4096,
        io_width: 4096,
        sector_size: 512,
        num_stripes: 3,
        sub_stripes: 1,
    }
}

fn sample_stripe(seed: u8) -> Stripe {
    Stripe {
        devid: seed as u64,
        offset: (seed as u64) << 16,
        dev_uuid: vec![seed; 16],
    }
}

fn chunk_with_stripes_bytes(count: u8) -> Vec<u8> {
    let mut buf: Vec<u8> = Vec::new();
    sample_chunk().encode_into(&mut buf);
    for i in 0..count {
        sample_stripe(i + 1).encode_into(&mut buf);
    }
    buf
}

#[test]
fn chunk_dynamic_exact_buffer() {
    let buf = chunk_with_stripes_bytes(3);
    assert_eq!(buf.len(), CHUNK_SIZE + 3 * STRIPE_SIZE); // 144 bytes
    let cd = ChunkDynamic::from_prefix(&buf, 3).unwrap();
    assert_eq!(cd.chunk, sample_chunk());
    assert_eq!(cd.stripes.len(), 3);
    for (i, st) in cd.stripes.iter().enumerate() {
        assert_eq!(*st, sample_stripe(i as u8 + 1));
    }
}

#[test]
fn chunk_dynamic_short_buffer_truncated() {
    let buf = chunk_with_stripes_bytes(3);
    assert_eq!(
        ChunkDynamic::from_prefix(&buf[..143], 3),
        Err(DecodeError::TruncatedRecord)
    );
}

#[test]
fn chunk_dynamic_zero_count() {
    let buf = chunk_with_stripes_bytes(0);
    assert_eq!(buf.len(), CHUNK_SIZE);
    let cd = ChunkDynamic::from_prefix(&buf, 0).unwrap();
    assert_eq!(cd.chunk, sample_chunk());
    assert!(cd.stripes.is_empty());
}

#[test]
fn chunk_dynamic_ignores_trailing_bytes() {
    let mut buf = chunk_with_stripes_bytes(2);
    buf.extend_from_slice(&[0xEE; 5]);
    let cd = ChunkDynamic::from_prefix(&buf, 2).unwrap();
    assert_eq!(cd.stripes.len(), 2);
}

#[test]
fn chunk_fixed_part_decode() {
    let buf = chunk_with_stripes_bytes(1);
    let c = Chunk::from_bytes(&buf).unwrap();
    assert_eq!(c, sample_chunk());
    assert_eq!(Chunk::from_bytes(&buf[..47]), Err(DecodeError::OutOfBounds));
    let st = Stripe::from_bytes(&buf[CHUNK_SIZE..]).unwrap();
    assert_eq!(st, sample_stripe(1));
}

#[test]
fn dynamic_bounds_huge_count_is_truncated_not_wrapped() {
    // A count chosen so that a wrapping multiply would look small.
    assert_eq!(
        dynamic_tail_bounds(1024, 48, 32, usize::MAX / 16),
        Err(DecodeError::TruncatedRecord)
    );
    assert_eq!(dynamic_tail_bounds(144, 48, 32, 3), Ok(144));
    assert_eq!(dynamic_tail_bounds(143, 48, 32, 3), Err(DecodeError::TruncatedRecord));
    assert_eq!(dynamic_tail_bounds(48, 48, 32, 0), Ok(48));
}

fn header_bytes(level: u8, num_items: u32, backref: u8) -> Vec<u8> {
    let mut buf: Vec<u8> = Vec::new();
    buf.extend_from_slice(&[0xAA; 32]); // csum
    buf.extend_from_slice(&[0xBB; 16]); // fs_uuid
    buf.extend_from_slice(&0x800000u64.to_le_bytes()); // logical_address
    buf.extend_from_slice(&[0x01, 0, 0, 0, 0, 0, 0]); // flags
    buf.push(backref); // backref_rev
    buf.extend_from_slice(&[0xCC; 16]); // chunk_tree_uuid
    buf.extend_from_slice(&7u64.to_le_bytes()); // generation
    buf.extend_from_slice(&5u64.to_le_bytes()); // tree_id
    buf.extend_from_slice(&num_items.to_le_bytes()); // num_items
    buf.push(level); // level
    buf
}

fn item_bytes(objectid: u64, offset: u32, size: u32) -> Vec<u8> {
    let mut buf: Vec<u8> = Vec::new();
    buf.extend_from_slice(&objectid.to_le_bytes());
    buf.push(0x54);
    buf.extend_from_slice(&0u64.to_le_bytes());
    buf.extend_from_slice(&offset.to_le_bytes());
    buf.extend_from_slice(&size.to_le_bytes());
    buf
}

#[test]
fn header_decode() {
    let buf = header_bytes(0, 2, 1);
    assert_eq!(buf.len(), HEADER_SIZE);
    let h = Header::from_bytes(&buf).unwrap();
    assert_eq!(h.logical_address, 0x800000);
    assert_eq!(h.backref_rev, BackrefRevision::Mixed);
    assert_eq!(h.generation, 7);
    assert_eq!(h.tree_id, 5);
    assert_eq!(h.num_items, 2);
    assert_eq!(h.level, 0);
    assert_eq!(h.csum, vec![0xAA; 32]);
    assert_eq!(h.flags, vec![0x01, 0, 0, 0, 0, 0, 0]);
    assert_eq!(Header::from_bytes(&buf[..100]), Err(DecodeError::OutOfBounds));
}

#[test]
fn header_invalid_backref_revision() {
    let buf = header_bytes(0, 2, 9);
    assert_eq!(Header::from_bytes(&buf), Err(DecodeError::UnknownRecordTag));
    assert_eq!(BackrefRevision::from_value(0), Some(BackrefRevision::Old));
    assert_eq!(BackrefRevision::from_value(1), Some(BackrefRevision::Mixed));
    assert_eq!(BackrefRevision::from_value(2), None);
}

#[test]
fn leaf_node_decode() {
    let mut buf = header_bytes(0, 2, 1);
    buf.extend_from_slice(&item_bytes(100, 3900, 25));
    buf.extend_from_slice(&item_bytes(101, 3800, 100));
    assert_eq!(buf.len(), HEADER_SIZE + 2 * ITEM_SIZE);
    let node = Node::from_bytes(&buf).unwrap();
    assert_eq!(node.header.num_items, 2);
    match node.body {
        NodeBody::Leaf(items) => {
            assert_eq!(items.len(), 2);
            assert_eq!(items[0].key.objectid, 100);
            assert_eq!(items[0].offset, 3900);
            assert_eq!(items[1].key.objectid, 101);
            assert_eq!(items[1].size, 100);
        }
        NodeBody::Internal(_) => panic!("a level 0 node must decode as a leaf"),
    }
}

#[test]
fn internal_node_decode() {
    let mut buf = header_bytes(1, 1, 0);
    buf.extend_from_slice(&1000u64.to_le_bytes());
    buf.push(0x60);
    buf.extend_from_slice(&0u64.to_le_bytes());
    buf.extend_from_slice(&0x900000u64.to_le_bytes()); // block_pointer
    buf.extend_from_slice(&6u64.to_le_bytes()); // generation
    assert_eq!(buf.len(), HEADER_SIZE + KEY_POINTER_SIZE);
    let node = Node::from_bytes(&buf).unwrap();
    assert_eq!(node.header.backref_rev, BackrefRevision::Old);
    match node.body {
        NodeBody::Internal(pointers) => {
            assert_eq!(pointers.len(), 1);
            assert_eq!(pointers[0].key.objectid, 1000);
            assert_eq!(pointers[0].block_pointer, 0x900000);
            assert_eq!(pointers[0].generation, 6);
        }
        NodeBody::Leaf(_) => panic!("a level 1 node must decode as internal"),
    }
}

#[test]
fn node_element_array_truncated() {
    let mut buf = header_bytes(0, 3, 1);
    buf.extend_from_slice(&item_bytes(100, 3900, 25));
    // The header announces 3 items but only 1 follows.
    assert_eq!(Node::from_bytes(&buf), Err(DecodeError::TruncatedRecord));
}

#[test]
fn item_and_key_pointer_standalone() {
    let it = Item::from_bytes(&item_bytes(42, 7, 8)).unwrap();
    assert_eq!(it.key.objectid, 42);
    assert_eq!(it.offset, 7);
    assert_eq!(it.size, 8);
    assert_eq!(Item::from_bytes(&[0u8; 24]), Err(DecodeError::OutOfBounds));
    assert_eq!(KeyPointer::from_bytes(&[0u8; 32]), Err(DecodeError::OutOfBounds));
}

//! Tree nodes: the 101-byte node header and the item or key-pointer
//! array that follows it.
//!
//! A node holds `num_items` trailing elements whose shape depends on the
//! header's `level` field: internal nodes carry 33-byte [`KeyPointer`]s,
//! leaves carry 25-byte [`Item`]s. Both counts live in the already-decoded
//! header, never in the trailing bytes themselves.

use vstd::bytes::*;
use vstd::prelude::*;

use crate::codec::{read_bytes_at, read_u32_at, read_u64_at, read_u8_at};
use crate::dynamic::{dynamic_tail_bounds, spec_dynamic_total};
use crate::error::DecodeError;
use crate::key::{spec_key_at, Key, KEY_SIZE};
use crate::{CSUM_SIZE, UUID_SIZE};

verus! {

/// The exact encoded width of a node [`Header`].
pub const HEADER_SIZE: usize = 101;

/// The exact encoded width of a [`KeyPointer`].
pub const KEY_POINTER_SIZE: usize = 33;

/// The exact encoded width of an [`Item`].
pub const ITEM_SIZE: usize = 25;

/// The width of the header's flag byte field.
pub const HEADER_FLAGS_SIZE: usize = 7;

/// The back-reference revision of the filesystem that wrote a node.
#[derive(Clone, Copy, Debug, Hash, PartialEq, Eq, Structural)]
pub enum BackrefRevision {
    /// Indicates an old filesystem.
    Old,
    /// Indicates a new filesystem.
    Mixed,
}

impl BackrefRevision {
    /// The on-disk value of this revision.
    pub open spec fn spec_value(self) -> u8 {
        match self {
            BackrefRevision::Old => 0,
            BackrefRevision::Mixed => 1,
        }
    }

    /// The on-disk value of this revision.
    #[verifier::when_used_as_spec(spec_value)]
    pub fn value(self) -> (r: u8)
        ensures
            r == self.spec_value(),
    {
        match self {
            BackrefRevision::Old => 0,
            BackrefRevision::Mixed => 1,
        }
    }

    /// The revision denoted by `x`, if `x` is in the closed set.
    pub open spec fn spec_from_value(x: u8) -> Option<BackrefRevision> {
        if x == 0 {
            Some(BackrefRevision::Old)
        } else if x == 1 {
            Some(BackrefRevision::Mixed)
        } else {
            None
        }
    }

    /// Looks `x` up in the closed set; any other value is rejected.
    pub fn from_value(x: u8) -> (r: Option<BackrefRevision>)
        ensures
            r == BackrefRevision::spec_from_value(x),
            r matches Some(b) ==> b.value() == x,
    {
        match x {
            0 => Some(BackrefRevision::Old),
            1 => Some(BackrefRevision::Mixed),
            _ => None,
        }
    }
}

/// The data stored at the start of every node.
#[derive(Clone, Debug, Hash, PartialEq, Eq)]
pub struct Header {
    /// The checksum of everything after this field; always [`CSUM_SIZE`]
    /// bytes.
    pub csum: Vec<u8>,
    /// The filesystem UUID; always [`UUID_SIZE`] bytes.
    pub fs_uuid: Vec<u8>,
    /// The logical address of this node.
    pub logical_address: u64,
    /// The flag bytes; always [`HEADER_FLAGS_SIZE`] bytes, of which the
    /// first 7 bits are meaningful.
    pub flags: Vec<u8>,
    /// The back-reference revision.
    pub backref_rev: BackrefRevision,
    /// The chunk tree UUID; always [`UUID_SIZE`] bytes.
    pub chunk_tree_uuid: Vec<u8>,
    /// The generation of this node.
    pub generation: u64,
    /// The ID of the tree containing this node.
    pub tree_id: u64,
    /// The number of items held in this node.
    pub num_items: u32,
    /// The level of this node; 0 indicates a leaf.
    pub level: u8,
}

/// The mathematical image of a [`Header`].
pub struct HeaderView {
    /// The bytes of the checksum field.
    pub csum: Seq<u8>,
    /// The bytes of the filesystem UUID.
    pub fs_uuid: Seq<u8>,
    /// The logical address of the node.
    pub logical_address: u64,
    /// The bytes of the flags field.
    pub flags: Seq<u8>,
    /// The back-reference revision.
    pub backref_rev: BackrefRevision,
    /// The bytes of the chunk tree UUID.
    pub chunk_tree_uuid: Seq<u8>,
    /// The generation of the node.
    pub generation: u64,
    /// The ID of the containing tree.
    pub tree_id: u64,
    /// The number of items held in the node.
    pub num_items: u32,
    /// The level of the node.
    pub level: u8,
}

impl View for Header {
    type V = HeaderView;

    open spec fn view(&self) -> HeaderView {
        HeaderView {
            csum: self.csum@,
            fs_uuid: self.fs_uuid@,
            logical_address: self.logical_address,
            flags: self.flags@,
            backref_rev: self.backref_rev,
            chunk_tree_uuid: self.chunk_tree_uuid@,
            generation: self.generation,
            tree_id: self.tree_id,
            num_items: self.num_items,
            level: self.level,
        }
    }
}

/// True when the back-reference revision byte of the header starting at
/// byte `off` of `s` holds a defined value.
pub open spec fn spec_header_backref_valid(s: Seq<u8>, off: int) -> bool {
    BackrefRevision::spec_from_value(s[off + 63]) is Some
}

/// The node header whose encoding starts at byte `off` of `s`.
pub open spec fn spec_header_at(s: Seq<u8>, off: int) -> HeaderView
    recommends
        0 <= off,
        off + HEADER_SIZE <= s.len(),
        spec_header_backref_valid(s, off),
{
    HeaderView {
        csum: s.subrange(off, off + 32),
        fs_uuid: s.subrange(off + 32, off + 48),
        logical_address: spec_u64_from_le_bytes(s.subrange(off + 48, off + 56)),
        flags: s.subrange(off + 56, off + 63),
        backref_rev: BackrefRevision::spec_from_value(s[off + 63])->0,
        chunk_tree_uuid: s.subrange(off + 64, off + 80),
        generation: spec_u64_from_le_bytes(s.subrange(off + 80, off + 88)),
        tree_id: spec_u64_from_le_bytes(s.subrange(off + 88, off + 96)),
        num_items: spec_u32_from_le_bytes(s.subrange(off + 96, off + 100)),
        level: s[off + 100],
    }
}

impl Header {
    /// Decodes a node header from the front of `bytes`; trailing bytes
    /// (the node's items) are ignored. A back-reference revision byte
    /// outside the closed set is rejected, never coerced.
    pub fn from_bytes(bytes: &[u8]) -> (r: Result<Header, DecodeError>)
        ensures
            bytes@.len() < HEADER_SIZE ==> r == Err::<Header, DecodeError>(DecodeError::OutOfBounds),
            bytes@.len() >= HEADER_SIZE && !spec_header_backref_valid(bytes@, 0) ==> r == Err::<
                Header,
                DecodeError,
            >(DecodeError::UnknownRecordTag),
            bytes@.len() >= HEADER_SIZE && spec_header_backref_valid(bytes@, 0) ==> (r matches Ok(h)
                && h@ == spec_header_at(bytes@, 0)),
    {
        if bytes.len() < HEADER_SIZE {
            return Err(DecodeError::OutOfBounds);
        }
        let backref_rev = match BackrefRevision::from_value(read_u8_at(bytes, 63)) {
            Some(b) => b,
            None => { return Err(DecodeError::UnknownRecordTag) },
        };
        Ok(
            Header {
                csum: read_bytes_at(bytes, 0, CSUM_SIZE),
                fs_uuid: read_bytes_at(bytes, 32, UUID_SIZE),
                logical_address: read_u64_at(bytes, 48),
                flags: read_bytes_at(bytes, 56, HEADER_FLAGS_SIZE),
                backref_rev,
                chunk_tree_uuid: read_bytes_at(bytes, 64, UUID_SIZE),
                generation: read_u64_at(bytes, 80),
                tree_id: read_u64_at(bytes, 88),
                num_items: read_u32_at(bytes, 96),
                level: read_u8_at(bytes, 100),
            },
        )
    }
}

/// A key pointer: the element of internal (non-leaf) nodes.
#[derive(Clone, Copy, Debug, Hash, PartialEq, Eq, Structural)]
pub struct KeyPointer {
    /// The first key reachable through the pointed-to child.
    pub key: Key,
    /// The logical address of the child node.
    pub block_pointer: u64,
    /// The generation of the child node.
    pub generation: u64,
}

/// The key pointer whose encoding starts at byte `off` of `s`.
pub open spec fn spec_key_pointer_at(s: Seq<u8>, off: int) -> KeyPointer
    recommends
        0 <= off,
        off + KEY_POINTER_SIZE <= s.len(),
{
    KeyPointer {
        key: spec_key_at(s, off),
        block_pointer: spec_u64_from_le_bytes(s.subrange(off + 17, off + 25)),
        generation: spec_u64_from_le_bytes(s.subrange(off + 25, off + 33)),
    }
}

impl KeyPointer {
    /// Decodes the key pointer found at byte `offset` of an enclosing
    /// buffer.
    pub fn decode_at(bytes: &[u8], offset: usize) -> (r: KeyPointer)
        requires
            offset + KEY_POINTER_SIZE <= bytes@.len(),
        ensures
            r == spec_key_pointer_at(bytes@, offset as int),
    {
        let _n: usize = bytes.len();
        KeyPointer {
            key: Key::decode_at(bytes, offset),
            block_pointer: read_u64_at(bytes, offset + 17),
            generation: read_u64_at(bytes, offset + 25),
        }
    }

    /// Decodes a key pointer from the front of `bytes`; trailing bytes
    /// are ignored.
    pub fn from_bytes(bytes: &[u8]) -> (r: Result<KeyPointer, DecodeError>)
        ensures
            bytes@.len() >= KEY_POINTER_SIZE ==> r == Ok::<KeyPointer, DecodeError>(
                spec_key_pointer_at(bytes@, 0),
            ),
            bytes@.len() < KEY_POINTER_SIZE ==> r == Err::<KeyPointer, DecodeError>(
                DecodeError::OutOfBounds,
            ),
    {
        if bytes.len() < KEY_POINTER_SIZE {
            return Err(DecodeError::OutOfBounds);
        }
        Ok(KeyPointer::decode_at(bytes, 0))
    }
}

/// An item: the element of leaf nodes. The payload bytes live at the end
/// of the node, located by `offset` and `size`.
#[derive(Clone, Copy, Debug, Hash, PartialEq, Eq, Structural)]
pub struct Item {
    /// The key that gives the ID and contents of this item.
    pub key: Key,
    /// The payload offset relative to the end of the header.
    pub offset: u32,
    /// The size of the payload.
    pub size: u32,
}

/// The item whose encoding starts at byte `off` of `s`.
pub open spec fn spec_item_at(s: Seq<u8>, off: int) -> Item
    recommends
        0 <= off,
        off + ITEM_SIZE <= s.len(),
{
    Item {
        key: spec_key_at(s, off),
        offset: spec_u32_from_le_bytes(s.subrange(off + 17, off + 21)),
        size: spec_u32_from_le_bytes(s.subrange(off + 21, off + 25)),
    }
}

impl Item {
    /// Decodes the item found at byte `offset` of an enclosing buffer.
    pub fn decode_at(bytes: &[u8], offset: usize) -> (r: Item)
        requires
            offset + ITEM_SIZE <= bytes@.len(),
        ensures
            r == spec_item_at(bytes@, offset as int),
    {
        let _n: usize = bytes.len();
        Item {
            key: Key::decode_at(bytes, offset),
            offset: read_u32_at(bytes, offset + 17),
            size: read_u32_at(bytes, offset + 21),
        }
    }

    /// Decodes an item from the front of `bytes`; trailing bytes are
    /// ignored.
    pub fn from_bytes(bytes: &[u8]) -> (r: Result<Item, DecodeError>)
        ensures
            bytes@.len() >= ITEM_SIZE ==> r == Ok::<Item, DecodeError>(spec_item_at(bytes@, 0)),
            bytes@.len() < ITEM_SIZE ==> r == Err::<Item, DecodeError>(DecodeError::OutOfBounds),
    {
        if bytes.len() < ITEM_SIZE {
            return Err(DecodeError::OutOfBounds);
        }
        Ok(Item::decode_at(bytes, 0))
    }
}

/// Decodes `count` consecutive items starting at byte `offset`.
pub fn decode_items(bytes: &[u8], offset: usize, count: usize) -> (r: Vec<Item>)
    requires
        offset + count * ITEM_SIZE <= bytes@.len(),
    ensures
        r@.len() == count,
        forall|i: int|
            0 <= i < count ==> #[trigger] r@[i] == spec_item_at(bytes@, offset + i * ITEM_SIZE),
{
    let _n: usize = bytes.len();
    let mut items: Vec<Item> = Vec::new();
    let mut i: usize = 0;
    while i < count
        invariant
            i <= count,
            offset + count * ITEM_SIZE <= bytes@.len(),
            bytes@.len() <= usize::MAX,
            items@.len() == i,
            forall|j: int|
                0 <= j < i ==> #[trigger] items@[j] == spec_item_at(bytes@, offset + j * ITEM_SIZE),
        decreases count - i,
    {
        proof {
            assert(i * ITEM_SIZE + ITEM_SIZE <= count * ITEM_SIZE);
        }
        let it = Item::decode_at(bytes, offset + i * ITEM_SIZE);
        items.push(it);
        i = i + 1;
    }
    items
}

/// Decodes `count` consecutive key pointers starting at byte `offset`.
pub fn decode_key_pointers(bytes: &[u8], offset: usize, count: usize) -> (r: Vec<KeyPointer>)
    requires
        offset + count * KEY_POINTER_SIZE <= bytes@.len(),
    ensures
        r@.len() == count,
        forall|i: int|
            0 <= i < count ==> #[trigger] r@[i] == spec_key_pointer_at(
                bytes@,
                offset + i * KEY_POINTER_SIZE,
            ),
{
    let _n: usize = bytes.len();
    let mut pointers: Vec<KeyPointer> = Vec::new();
    let mut i: usize = 0;
    while i < count
        invariant
            i <= count,
            offset + count * KEY_POINTER_SIZE <= bytes@.len(),
            bytes@.len() <= usize::MAX,
            pointers@.len() == i,
            forall|j: int|
                0 <= j < i ==> #[trigger] pointers@[j] == spec_key_pointer_at(
                    bytes@,
                    offset + j * KEY_POINTER_SIZE,
                ),
        decreases count - i,
    {
        proof {
            assert(i * KEY_POINTER_SIZE + KEY_POINTER_SIZE <= count * KEY_POINTER_SIZE);
        }
        let kp = KeyPointer::decode_at(bytes, offset + i * KEY_POINTER_SIZE);
        pointers.push(kp);
        i = i + 1;
    }
    pointers
}

/// The element array of a node: key pointers for an internal node, items
/// for a leaf.
#[derive(Clone, Debug, Hash, PartialEq, Eq)]
pub enum NodeBody {
    /// The key pointers of an internal node, in on-disk order.
    Internal(Vec<KeyPointer>),
    /// The items of a leaf node, in on-disk order.
    Leaf(Vec<Item>),
}

/// A node header together with its decoded element array.
#[derive(Clone, Debug, Hash, PartialEq, Eq)]
pub struct Node {
    /// The fixed 101-byte header.
    pub header: Header,
    /// The `num_items` elements that follow the header.
    pub body: NodeBody,
}

/// The element width the header starting at byte 0 of `s` calls for:
/// items on level 0, key pointers above.
pub open spec fn spec_node_element_size(s: Seq<u8>) -> int {
    if spec_header_at(s, 0).level == 0 {
        ITEM_SIZE as int
    } else {
        KEY_POINTER_SIZE as int
    }
}

impl Node {
    /// Decodes a node: the 101-byte header, then exactly `num_items`
    /// elements whose shape the header's `level` selects. The computed
    /// total must fit the buffer; otherwise decoding fails with
    /// [`DecodeError::TruncatedRecord`] rather than truncating the array.
    /// Bytes past the element array (the leaf payload region) are kept
    /// out of the returned value and are not validated here.
    pub fn from_bytes(bytes: &[u8]) -> (r: Result<Node, DecodeError>)
        ensures
            bytes@.len() < HEADER_SIZE ==> r == Err::<Node, DecodeError>(DecodeError::OutOfBounds),
            bytes@.len() >= HEADER_SIZE && !spec_header_backref_valid(bytes@, 0) ==> r == Err::<
                Node,
                DecodeError,
            >(DecodeError::UnknownRecordTag),
            bytes@.len() >= HEADER_SIZE && spec_header_backref_valid(bytes@, 0) && spec_dynamic_total(
                HEADER_SIZE as int,
                spec_node_element_size(bytes@),
                spec_header_at(bytes@, 0).num_items as int,
            ) > bytes@.len() ==> r == Err::<Node, DecodeError>(DecodeError::TruncatedRecord),
            bytes@.len() >= HEADER_SIZE && spec_header_backref_valid(bytes@, 0) && spec_dynamic_total(
                HEADER_SIZE as int,
                spec_node_element_size(bytes@),
                spec_header_at(bytes@, 0).num_items as int,
            ) <= bytes@.len() ==> (r matches Ok(n) && {
                let h = spec_header_at(bytes@, 0);
                &&& n.header@ == h
                &&& h.level == 0 ==> (n.body matches NodeBody::Leaf(items) && items@.len()
                    == h.num_items && forall|i: int|
                    0 <= i < h.num_items ==> #[trigger] items@[i] == spec_item_at(
                        bytes@,
                        HEADER_SIZE + i * ITEM_SIZE,
                    ))
                &&& h.level != 0 ==> (n.body matches NodeBody::Internal(pointers)
                    && pointers@.len() == h.num_items && forall|i: int|
                    0 <= i < h.num_items ==> #[trigger] pointers@[i] == spec_key_pointer_at(
                        bytes@,
                        HEADER_SIZE + i * KEY_POINTER_SIZE,
                    ))
            }),
    {
        let header = Header::from_bytes(bytes)?;
        let count = header.num_items as usize;
        if header.level == 0 {
            let _total = dynamic_tail_bounds(bytes.len(), HEADER_SIZE, ITEM_SIZE, count)?;
            let items = decode_items(bytes, HEADER_SIZE, count);
            Ok(Node { header, body: NodeBody::Leaf(items) })
        } else {
            let _total = dynamic_tail_bounds(bytes.len(), HEADER_SIZE, KEY_POINTER_SIZE, count)?;
            let pointers = decode_key_pointers(bytes, HEADER_SIZE, count);
            Ok(Node { header, body: NodeBody::Internal(pointers) })
        }
    }
}

} // verus!

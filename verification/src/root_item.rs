//! The 439-byte root item: the location and parameters of the root of a
//! tree.

use vstd::bytes::*;
use vstd::prelude::*;

use crate::codec::{read_bytes_at, read_u32_at, read_u64_at, read_u8_at};
use crate::error::DecodeError;
use crate::inode_item::{spec_inode_item_at, InodeItem};
use crate::key::{spec_key_at, Key};
use crate::time::{spec_time_at, Time};
use crate::UUID_SIZE;

verus! {

/// The exact encoded width of a [`RootItem`].
pub const ROOT_ITEM_SIZE: usize = 439;

/// Defines the location and parameters of the root of a tree.
#[derive(Clone, Debug, Hash, PartialEq, Eq)]
pub struct RootItem {
    /// The inode describing the root.
    pub inode: InodeItem,
    /// The generation of the root.
    pub generation: u64,
    /// The object ID of the root directory.
    pub root_dirid: u64,
    /// The logical address of the root node.
    pub bytenr: u64,
    /// Currently unused; always 0.
    pub byte_limit: u64,
    /// Currently unused.
    pub bytes_used: u64,
    /// The transaction ID of the last snapshot of this root.
    pub last_snapshot: u64,
    /// Flags of the root.
    pub flags: u64,
    /// Only 0 or 1; historically a reference count.
    pub refs: u32,
    /// The key of the last dropped item during subvolume removal or
    /// relocation; zeroed otherwise.
    pub drop_progress: Key,
    /// The tree level of the node referenced in `drop_progress`.
    pub drop_level: u8,
    /// The height of this root's tree.
    pub level: u8,
    /// Equals `generation` when the fields below are valid; an older
    /// writer leaves it behind.
    pub generation_v2: u64,
    /// The subvolume's UUID; always [`UUID_SIZE`] bytes.
    pub uuid: Vec<u8>,
    /// The parent subvolume's UUID; always [`UUID_SIZE`] bytes.
    pub parent_uuid: Vec<u8>,
    /// The received UUID; always [`UUID_SIZE`] bytes.
    pub received_uuid: Vec<u8>,
    /// The transaction ID of the last transaction that modified the tree.
    pub ctransid: u64,
    /// The transaction ID of the transaction that created the tree.
    pub otransid: u64,
    /// The transaction ID of the transaction that sent this subvolume.
    pub stransid: u64,
    /// The transaction ID of the transaction that received this
    /// subvolume.
    pub rtransid: u64,
    /// The timestamp of `ctransid`.
    pub ctime: Time,
    /// The timestamp of `otransid`.
    pub otime: Time,
    /// The timestamp of `stransid`.
    pub stime: Time,
    /// The timestamp of `rtransid`.
    pub rtime: Time,
}

/// The mathematical image of a [`RootItem`].
pub struct RootItemView {
    /// The inode describing the root.
    pub inode: InodeItem,
    /// The generation of the root.
    pub generation: u64,
    /// The object ID of the root directory.
    pub root_dirid: u64,
    /// The logical address of the root node.
    pub bytenr: u64,
    /// Currently unused; always 0.
    pub byte_limit: u64,
    /// Currently unused.
    pub bytes_used: u64,
    /// The transaction ID of the last snapshot.
    pub last_snapshot: u64,
    /// Flags of the root.
    pub flags: u64,
    /// Only 0 or 1.
    pub refs: u32,
    /// The key of the last dropped item.
    pub drop_progress: Key,
    /// The tree level of the node in `drop_progress`.
    pub drop_level: u8,
    /// The height of the tree.
    pub level: u8,
    /// Equals `generation` when the later fields are valid.
    pub generation_v2: u64,
    /// The bytes of the subvolume's UUID.
    pub uuid: Seq<u8>,
    /// The bytes of the parent subvolume's UUID.
    pub parent_uuid: Seq<u8>,
    /// The bytes of the received UUID.
    pub received_uuid: Seq<u8>,
    /// The transaction ID of the last modification.
    pub ctransid: u64,
    /// The transaction ID of the creation.
    pub otransid: u64,
    /// The transaction ID of the send.
    pub stransid: u64,
    /// The transaction ID of the receive.
    pub rtransid: u64,
    /// The timestamp of `ctransid`.
    pub ctime: Time,
    /// The timestamp of `otransid`.
    pub otime: Time,
    /// The timestamp of `stransid`.
    pub stime: Time,
    /// The timestamp of `rtransid`.
    pub rtime: Time,
}

impl View for RootItem {
    type V = RootItemView;

    open spec fn view(&self) -> RootItemView {
        RootItemView {
            inode: self.inode,
            generation: self.generation,
            root_dirid: self.root_dirid,
            bytenr: self.bytenr,
            byte_limit: self.byte_limit,
            bytes_used: self.bytes_used,
            last_snapshot: self.last_snapshot,
            flags: self.flags,
            refs: self.refs,
            drop_progress: self.drop_progress,
            drop_level: self.drop_level,
            level: self.level,
            generation_v2: self.generation_v2,
            uuid: self.uuid@,
            parent_uuid: self.parent_uuid@,
            received_uuid: self.received_uuid@,
            ctransid: self.ctransid,
            otransid: self.otransid,
            stransid: self.stransid,
            rtransid: self.rtransid,
            ctime: self.ctime,
            otime: self.otime,
            stime: self.stime,
            rtime: self.rtime,
        }
    }
}

/// The root item whose encoding starts at byte `off` of `s`. The 64
/// reserved bytes at the end are skipped.
pub open spec fn spec_root_item_at(s: Seq<u8>, off: int) -> RootItemView
    recommends
        0 <= off,
        off + ROOT_ITEM_SIZE <= s.len(),
{
    RootItemView {
        inode: spec_inode_item_at(s, off),
        generation: spec_u64_from_le_bytes(s.subrange(off + 160, off + 168)),
        root_dirid: spec_u64_from_le_bytes(s.subrange(off + 168, off + 176)),
        bytenr: spec_u64_from_le_bytes(s.subrange(off + 176, off + 184)),
        byte_limit: spec_u64_from_le_bytes(s.subrange(off + 184, off + 192)),
        bytes_used: spec_u64_from_le_bytes(s.subrange(off + 192, off + 200)),
        last_snapshot: spec_u64_from_le_bytes(s.subrange(off + 200, off + 208)),
        flags: spec_u64_from_le_bytes(s.subrange(off + 208, off + 216)),
        refs: spec_u32_from_le_bytes(s.subrange(off + 216, off + 220)),
        drop_progress: spec_key_at(s, off + 220),
        drop_level: s[off + 237],
        level: s[off + 238],
        generation_v2: spec_u64_from_le_bytes(s.subrange(off + 239, off + 247)),
        uuid: s.subrange(off + 247, off + 263),
        parent_uuid: s.subrange(off + 263, off + 279),
        received_uuid: s.subrange(off + 279, off + 295),
        ctransid: spec_u64_from_le_bytes(s.subrange(off + 295, off + 303)),
        otransid: spec_u64_from_le_bytes(s.subrange(off + 303, off + 311)),
        stransid: spec_u64_from_le_bytes(s.subrange(off + 311, off + 319)),
        rtransid: spec_u64_from_le_bytes(s.subrange(off + 319, off + 327)),
        ctime: spec_time_at(s, off + 327),
        otime: spec_time_at(s, off + 339),
        stime: spec_time_at(s, off + 351),
        rtime: spec_time_at(s, off + 363),
    }
}

impl RootItem {
    /// Decodes the root item found at byte `offset` of an enclosing
    /// buffer.
    pub fn decode_at(bytes: &[u8], offset: usize) -> (r: RootItem)
        requires
            offset + ROOT_ITEM_SIZE <= bytes@.len(),
        ensures
            r@ == spec_root_item_at(bytes@, offset as int),
    {
        let _n: usize = bytes.len();
        RootItem {
            inode: InodeItem::decode_at(bytes, offset),
            generation: read_u64_at(bytes, offset + 160),
            root_dirid: read_u64_at(bytes, offset + 168),
            bytenr: read_u64_at(bytes, offset + 176),
            byte_limit: read_u64_at(bytes, offset + 184),
            bytes_used: read_u64_at(bytes, offset + 192),
            last_snapshot: read_u64_at(bytes, offset + 200),
            flags: read_u64_at(bytes, offset + 208),
            refs: read_u32_at(bytes, offset + 216),
            drop_progress: Key::decode_at(bytes, offset + 220),
            drop_level: read_u8_at(bytes, offset + 237),
            level: read_u8_at(bytes, offset + 238),
            generation_v2: read_u64_at(bytes, offset + 239),
            uuid: read_bytes_at(bytes, offset + 247, UUID_SIZE),
            parent_uuid: read_bytes_at(bytes, offset + 263, UUID_SIZE),
            received_uuid: read_bytes_at(bytes, offset + 279, UUID_SIZE),
            ctransid: read_u64_at(bytes, offset + 295),
            otransid: read_u64_at(bytes, offset + 303),
            stransid: read_u64_at(bytes, offset + 311),
            rtransid: read_u64_at(bytes, offset + 319),
            ctime: Time::decode_at(bytes, offset + 327),
            otime: Time::decode_at(bytes, offset + 339),
            stime: Time::decode_at(bytes, offset + 351),
            rtime: Time::decode_at(bytes, offset + 363),
        }
    }

    /// Decodes a root item from the front of `bytes`; trailing bytes are
    /// ignored.
    pub fn from_bytes(bytes: &[u8]) -> (r: Result<RootItem, DecodeError>)
        ensures
            bytes@.len() >= ROOT_ITEM_SIZE ==> (r matches Ok(ri) && ri@ == spec_root_item_at(
                bytes@,
                0,
            )),
            bytes@.len() < ROOT_ITEM_SIZE ==> r == Err::<RootItem, DecodeError>(
                DecodeError::OutOfBounds,
            ),
    {
        if bytes.len() < ROOT_ITEM_SIZE {
            return Err(DecodeError::OutOfBounds);
        }
        Ok(RootItem::decode_at(bytes, 0))
    }
}

} // verus!

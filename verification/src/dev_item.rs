//! The 98-byte device item: describes one complete block device of the
//! filesystem.

use vstd::bytes::*;
use vstd::prelude::*;

use crate::codec::{read_bytes_at, read_u32_at, read_u64_at, read_u8_at};
use crate::error::DecodeError;
use crate::UUID_SIZE;

verus! {

/// The exact encoded width of a [`DevItem`].
pub const DEV_ITEM_SIZE: usize = 98;

/// Represents a complete block device.
#[derive(Clone, Debug, Hash, PartialEq, Eq)]
pub struct DevItem {
    /// The internal device ID.
    pub devid: u64,
    /// The size of the device.
    pub total_bytes: u64,
    /// The bytes in use by the filesystem on the device.
    pub bytes_used: u64,
    /// The optimal I/O alignment for this device.
    pub io_align: u32,
    /// The optimal I/O width for this device.
    pub io_width: u32,
    /// The minimum I/O size for this device.
    pub sector_size: u32,
    /// The type and info for this device.
    pub dev_type: u64,
    /// The expected generation for this device.
    pub generation: u64,
    /// The starting byte of this partition on the device.
    pub start_offset: u64,
    /// Grouping information for allocation decisions.
    pub dev_group: u32,
    /// The seek speed of the device on a 0 to 100 scale.
    pub seek_speed: u8,
    /// The bandwidth of the device on a 0 to 100 scale.
    pub bandwith: u8,
    /// The generated UUID for this device; always [`UUID_SIZE`] bytes.
    pub uuid: Vec<u8>,
    /// The UUID of the owning filesystem; always [`UUID_SIZE`] bytes.
    pub fsid: Vec<u8>,
}

/// The mathematical image of a [`DevItem`].
pub struct DevItemView {
    /// The internal device ID.
    pub devid: u64,
    /// The size of the device.
    pub total_bytes: u64,
    /// The bytes in use on the device.
    pub bytes_used: u64,
    /// The optimal I/O alignment.
    pub io_align: u32,
    /// The optimal I/O width.
    pub io_width: u32,
    /// The minimum I/O size.
    pub sector_size: u32,
    /// The type and info for the device.
    pub dev_type: u64,
    /// The expected generation.
    pub generation: u64,
    /// The starting byte of the partition.
    pub start_offset: u64,
    /// Grouping information.
    pub dev_group: u32,
    /// The seek speed on a 0 to 100 scale.
    pub seek_speed: u8,
    /// The bandwidth on a 0 to 100 scale.
    pub bandwith: u8,
    /// The bytes of the device UUID.
    pub uuid: Seq<u8>,
    /// The bytes of the owning filesystem's UUID.
    pub fsid: Seq<u8>,
}

impl View for DevItem {
    type V = DevItemView;

    open spec fn view(&self) -> DevItemView {
        DevItemView {
            devid: self.devid,
            total_bytes: self.total_bytes,
            bytes_used: self.bytes_used,
            io_align: self.io_align,
            io_width: self.io_width,
            sector_size: self.sector_size,
            dev_type: self.dev_type,
            generation: self.generation,
            start_offset: self.start_offset,
            dev_group: self.dev_group,
            seek_speed: self.seek_speed,
            bandwith: self.bandwith,
            uuid: self.uuid@,
            fsid: self.fsid@,
        }
    }
}

/// The device item whose encoding starts at byte `off` of `s`.
pub open spec fn spec_dev_item_at(s: Seq<u8>, off: int) -> DevItemView
    recommends
        0 <= off,
        off + DEV_ITEM_SIZE <= s.len(),
{
    DevItemView {
        devid: spec_u64_from_le_bytes(s.subrange(off, off + 8)),
        total_bytes: spec_u64_from_le_bytes(s.subrange(off + 8, off + 16)),
        bytes_used: spec_u64_from_le_bytes(s.subrange(off + 16, off + 24)),
        io_align: spec_u32_from_le_bytes(s.subrange(off + 24, off + 28)),
        io_width: spec_u32_from_le_bytes(s.subrange(off + 28, off + 32)),
        sector_size: spec_u32_from_le_bytes(s.subrange(off + 32, off + 36)),
        dev_type: spec_u64_from_le_bytes(s.subrange(off + 36, off + 44)),
        generation: spec_u64_from_le_bytes(s.subrange(off + 44, off + 52)),
        start_offset: spec_u64_from_le_bytes(s.subrange(off + 52, off + 60)),
        dev_group: spec_u32_from_le_bytes(s.subrange(off + 60, off + 64)),
        seek_speed: s[off + 64],
        bandwith: s[off + 65],
        uuid: s.subrange(off + 66, off + 82),
        fsid: s.subrange(off + 82, off + 98),
    }
}

impl DevItem {
    /// Decodes the device item found at byte `offset` of an enclosing
    /// buffer.
    pub fn decode_at(bytes: &[u8], offset: usize) -> (r: DevItem)
        requires
            offset + DEV_ITEM_SIZE <= bytes@.len(),
        ensures
            r@ == spec_dev_item_at(bytes@, offset as int),
    {
        let _n: usize = bytes.len();
        DevItem {
            devid: read_u64_at(bytes, offset),
            total_bytes: read_u64_at(bytes, offset + 8),
            bytes_used: read_u64_at(bytes, offset + 16),
            io_align: read_u32_at(bytes, offset + 24),
            io_width: read_u32_at(bytes, offset + 28),
            sector_size: read_u32_at(bytes, offset + 32),
            dev_type: read_u64_at(bytes, offset + 36),
            generation: read_u64_at(bytes, offset + 44),
            start_offset: read_u64_at(bytes, offset + 52),
            dev_group: read_u32_at(bytes, offset + 60),
            seek_speed: read_u8_at(bytes, offset + 64),
            bandwith: read_u8_at(bytes, offset + 65),
            uuid: read_bytes_at(bytes, offset + 66, UUID_SIZE),
            fsid: read_bytes_at(bytes, offset + 82, UUID_SIZE),
        }
    }

    /// Decodes a device item from the front of `bytes`; trailing bytes
    /// are ignored.
    pub fn from_bytes(bytes: &[u8]) -> (r: Result<DevItem, DecodeError>)
        ensures
            bytes@.len() >= DEV_ITEM_SIZE ==> (r matches Ok(d) && d@ == spec_dev_item_at(bytes@, 0)),
            bytes@.len() < DEV_ITEM_SIZE ==> r == Err::<DevItem, DecodeError>(
                DecodeError::OutOfBounds,
            ),
    {
        if bytes.len() < DEV_ITEM_SIZE {
            return Err(DecodeError::OutOfBounds);
        }
        Ok(DevItem::decode_at(bytes, 0))
    }
}

} // verus!

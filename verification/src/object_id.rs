//! Reserved object identifiers: the closed set of well-known IDs that
//! denote built-in trees or special inodes rather than user-assigned
//! objects.
//!
//! Several reserved IDs are the two's complement of a small negative
//! number stored in an unsigned 64-bit field; those bit patterns are part
//! of the on-disk contract and are preserved exactly. Membership tests
//! fail closed: a value outside the enumeration is simply not reserved.

use vstd::prelude::*;

verus! {

/// The first object ID available for user assignment.
pub const FIRST_FREE_OBJECT_ID: u64 = 256;

/// The last object ID available for user assignment.
pub const LAST_FREE_OBJECT_ID: u64 = 0xFFFF_FFFF_FFFF_FF00;

/// The closed set of well-known object IDs.
#[derive(Clone, Copy, Debug, Hash, PartialEq, Eq, Structural)]
pub enum ReservedObjectId {
    /// Device stats in the device tree.
    DevStats,
    /// The root tree itself.
    RootTree,
    /// The extent tree.
    ExtentTree,
    /// The root of the chunk tree.
    ChunkTree,
    /// The root of the device tree.
    DevTree,
    /// The global filesystem tree root.
    FsTree,
    /// The directory within the root tree holding the default subvolume.
    RootTreeDirectory,
    /// The checksum tree.
    ChecksumTree,
    /// The quota tree.
    QuotaTree,
    /// The UUID tree.
    UuidTree,
    /// The free space tree.
    FreeSpaceTree,
    /// Where balance parameters are written in the root tree.
    Balance,
    /// Orphan root tracking.
    Orphan,
    /// The tree log tree.
    TreeLogTree,
    /// The tree relocation tree.
    TreeRelocationTree,
    /// The data relocation tree.
    DataRelocationTree,
    /// All extent checksums; documented but not reached through normal
    /// decoding paths.
    ExtentChecksum,
    /// The inode storing the free space cache.
    FreeSpace,
    /// The inode storing the free inode cache.
    FreeInode,
    /// A dummy ID standing for multiple object IDs.
    MultipleObjectIds,
}

impl ReservedObjectId {
    /// The on-disk numeric value of this reserved ID.
    pub open spec fn spec_value(self) -> u64 {
        match self {
            ReservedObjectId::DevStats => 0,
            ReservedObjectId::RootTree => 1,
            ReservedObjectId::ExtentTree => 2,
            ReservedObjectId::ChunkTree => 3,
            ReservedObjectId::DevTree => 4,
            ReservedObjectId::FsTree => 5,
            ReservedObjectId::RootTreeDirectory => 6,
            ReservedObjectId::ChecksumTree => 7,
            ReservedObjectId::QuotaTree => 8,
            ReservedObjectId::UuidTree => 9,
            ReservedObjectId::FreeSpaceTree => 10,
            ReservedObjectId::Balance => 0xFFFF_FFFF_FFFF_FFFC,
            ReservedObjectId::Orphan => 0xFFFF_FFFF_FFFF_FFFB,
            ReservedObjectId::TreeLogTree => 0xFFFF_FFFF_FFFF_FFF9,
            ReservedObjectId::TreeRelocationTree => 0xFFFF_FFFF_FFFF_FFF8,
            ReservedObjectId::DataRelocationTree => 0xFFFF_FFFF_FFFF_FFF7,
            ReservedObjectId::ExtentChecksum => 0xFFFF_FFFF_FFFF_FFF6,
            ReservedObjectId::FreeSpace => 0xFFFF_FFFF_FFFF_FFF5,
            ReservedObjectId::FreeInode => 0xFFFF_FFFF_FFFF_FFF4,
            ReservedObjectId::MultipleObjectIds => 0xFFFF_FFFF_FFFF_FF01,
        }
    }

    /// The on-disk numeric value of this reserved ID.
    #[verifier::when_used_as_spec(spec_value)]
    pub fn value(self) -> (r: u64)
        ensures
            r == self.spec_value(),
    {
        match self {
            ReservedObjectId::DevStats => 0,
            ReservedObjectId::RootTree => 1,
            ReservedObjectId::ExtentTree => 2,
            ReservedObjectId::ChunkTree => 3,
            ReservedObjectId::DevTree => 4,
            ReservedObjectId::FsTree => 5,
            ReservedObjectId::RootTreeDirectory => 6,
            ReservedObjectId::ChecksumTree => 7,
            ReservedObjectId::QuotaTree => 8,
            ReservedObjectId::UuidTree => 9,
            ReservedObjectId::FreeSpaceTree => 10,
            ReservedObjectId::Balance => 0xFFFF_FFFF_FFFF_FFFC,
            ReservedObjectId::Orphan => 0xFFFF_FFFF_FFFF_FFFB,
            ReservedObjectId::TreeLogTree => 0xFFFF_FFFF_FFFF_FFF9,
            ReservedObjectId::TreeRelocationTree => 0xFFFF_FFFF_FFFF_FFF8,
            ReservedObjectId::DataRelocationTree => 0xFFFF_FFFF_FFFF_FFF7,
            ReservedObjectId::ExtentChecksum => 0xFFFF_FFFF_FFFF_FFF6,
            ReservedObjectId::FreeSpace => 0xFFFF_FFFF_FFFF_FFF5,
            ReservedObjectId::FreeInode => 0xFFFF_FFFF_FFFF_FFF4,
            ReservedObjectId::MultipleObjectIds => 0xFFFF_FFFF_FFFF_FF01,
        }
    }

    /// The reserved ID denoted by `x`, if `x` is in the closed set.
    pub open spec fn spec_from_value(x: u64) -> Option<ReservedObjectId> {
        if x == 0 {
            Some(ReservedObjectId::DevStats)
        } else if x == 1 {
            Some(ReservedObjectId::RootTree)
        } else if x == 2 {
            Some(ReservedObjectId::ExtentTree)
        } else if x == 3 {
            Some(ReservedObjectId::ChunkTree)
        } else if x == 4 {
            Some(ReservedObjectId::DevTree)
        } else if x == 5 {
            Some(ReservedObjectId::FsTree)
        } else if x == 6 {
            Some(ReservedObjectId::RootTreeDirectory)
        } else if x == 7 {
            Some(ReservedObjectId::ChecksumTree)
        } else if x == 8 {
            Some(ReservedObjectId::QuotaTree)
        } else if x == 9 {
            Some(ReservedObjectId::UuidTree)
        } else if x == 10 {
            Some(ReservedObjectId::FreeSpaceTree)
        } else if x == 0xFFFF_FFFF_FFFF_FFFC {
            Some(ReservedObjectId::Balance)
        } else if x == 0xFFFF_FFFF_FFFF_FFFB {
            Some(ReservedObjectId::Orphan)
        } else if x == 0xFFFF_FFFF_FFFF_FFF9 {
            Some(ReservedObjectId::TreeLogTree)
        } else if x == 0xFFFF_FFFF_FFFF_FFF8 {
            Some(ReservedObjectId::TreeRelocationTree)
        } else if x == 0xFFFF_FFFF_FFFF_FFF7 {
            Some(ReservedObjectId::DataRelocationTree)
        } else if x == 0xFFFF_FFFF_FFFF_FFF6 {
            Some(ReservedObjectId::ExtentChecksum)
        } else if x == 0xFFFF_FFFF_FFFF_FFF5 {
            Some(ReservedObjectId::FreeSpace)
        } else if x == 0xFFFF_FFFF_FFFF_FFF4 {
            Some(ReservedObjectId::FreeInode)
        } else if x == 0xFFFF_FFFF_FFFF_FF01 {
            Some(ReservedObjectId::MultipleObjectIds)
        } else {
            None
        }
    }

    /// Looks `x` up in the closed set; any other value is rejected.
    pub fn from_value(x: u64) -> (r: Option<ReservedObjectId>)
        ensures
            r == ReservedObjectId::spec_from_value(x),
            r matches Some(id) ==> id.value() == x,
            r is None <==> !spec_is_reserved_object_id(x),
    {
        let r = match x {
            0 => Some(ReservedObjectId::DevStats),
            1 => Some(ReservedObjectId::RootTree),
            2 => Some(ReservedObjectId::ExtentTree),
            3 => Some(ReservedObjectId::ChunkTree),
            4 => Some(ReservedObjectId::DevTree),
            5 => Some(ReservedObjectId::FsTree),
            6 => Some(ReservedObjectId::RootTreeDirectory),
            7 => Some(ReservedObjectId::ChecksumTree),
            8 => Some(ReservedObjectId::QuotaTree),
            9 => Some(ReservedObjectId::UuidTree),
            10 => Some(ReservedObjectId::FreeSpaceTree),
            0xFFFF_FFFF_FFFF_FFFC => Some(ReservedObjectId::Balance),
            0xFFFF_FFFF_FFFF_FFFB => Some(ReservedObjectId::Orphan),
            0xFFFF_FFFF_FFFF_FFF9 => Some(ReservedObjectId::TreeLogTree),
            0xFFFF_FFFF_FFFF_FFF8 => Some(ReservedObjectId::TreeRelocationTree),
            0xFFFF_FFFF_FFFF_FFF7 => Some(ReservedObjectId::DataRelocationTree),
            0xFFFF_FFFF_FFFF_FFF6 => Some(ReservedObjectId::ExtentChecksum),
            0xFFFF_FFFF_FFFF_FFF5 => Some(ReservedObjectId::FreeSpace),
            0xFFFF_FFFF_FFFF_FFF4 => Some(ReservedObjectId::FreeInode),
            0xFFFF_FFFF_FFFF_FF01 => Some(ReservedObjectId::MultipleObjectIds),
            _ => None,
        };
        proof {
            if r is Some {
                assert(r->0.spec_value() == x);
                assert(spec_is_reserved_object_id(x));
            } else {
                assert forall|id: ReservedObjectId| id.spec_value() != x by {
                    match id {
                        ReservedObjectId::DevStats => assert(id.spec_value() == 0),
                        ReservedObjectId::RootTree => assert(id.spec_value() == 1),
                        ReservedObjectId::ExtentTree => assert(id.spec_value() == 2),
                        ReservedObjectId::ChunkTree => assert(id.spec_value() == 3),
                        ReservedObjectId::DevTree => assert(id.spec_value() == 4),
                        ReservedObjectId::FsTree => assert(id.spec_value() == 5),
                        ReservedObjectId::RootTreeDirectory => assert(id.spec_value() == 6),
                        ReservedObjectId::ChecksumTree => assert(id.spec_value() == 7),
                        ReservedObjectId::QuotaTree => assert(id.spec_value() == 8),
                        ReservedObjectId::UuidTree => assert(id.spec_value() == 9),
                        ReservedObjectId::FreeSpaceTree => assert(id.spec_value() == 10),
                        ReservedObjectId::Balance => assert(id.spec_value()
                            == 0xFFFF_FFFF_FFFF_FFFC),
                        ReservedObjectId::Orphan => assert(id.spec_value()
                            == 0xFFFF_FFFF_FFFF_FFFB),
                        ReservedObjectId::TreeLogTree => assert(id.spec_value()
                            == 0xFFFF_FFFF_FFFF_FFF9),
                        ReservedObjectId::TreeRelocationTree => assert(id.spec_value()
                            == 0xFFFF_FFFF_FFFF_FFF8),
                        ReservedObjectId::DataRelocationTree => assert(id.spec_value()
                            == 0xFFFF_FFFF_FFFF_FFF7),
                        ReservedObjectId::ExtentChecksum => assert(id.spec_value()
                            == 0xFFFF_FFFF_FFFF_FFF6),
                        ReservedObjectId::FreeSpace => assert(id.spec_value()
                            == 0xFFFF_FFFF_FFFF_FFF5),
                        ReservedObjectId::FreeInode => assert(id.spec_value()
                            == 0xFFFF_FFFF_FFFF_FFF4),
                        ReservedObjectId::MultipleObjectIds => assert(id.spec_value()
                            == 0xFFFF_FFFF_FFFF_FF01),
                    }
                }
            }
        }
        r
    }
}

/// True exactly when `x` is the value of one of the reserved IDs.
pub open spec fn spec_is_reserved_object_id(x: u64) -> bool {
    exists|id: ReservedObjectId| id.spec_value() == x
}

/// An object identifier, reserved or user-assigned.
#[derive(Clone, Copy, Debug, Hash, PartialEq, Eq, Structural)]
pub struct ObjectId(pub u64);

impl ObjectId {
    /// True exactly when this ID is one of the reserved IDs.
    pub fn is_valid_reserved(&self) -> (r: bool)
        ensures
            r == spec_is_reserved_object_id(self.0),
    {
        let found = ReservedObjectId::from_value(self.0).is_some();
        proof {
            if found {
                let id = ReservedObjectId::spec_from_value(self.0)->0;
                assert(id.spec_value() == self.0);
            }
        }
        found
    }

    /// True exactly when this ID lies in the user-assignable range.
    pub fn is_in_free_range(&self) -> (r: bool)
        ensures
            r == (FIRST_FREE_OBJECT_ID <= self.0 <= LAST_FREE_OBJECT_ID),
    {
        self.0 >= FIRST_FREE_OBJECT_ID && self.0 <= LAST_FREE_OBJECT_ID
    }
}

impl From<u64> for ObjectId {
    /// Wraps a raw 64-bit value, reserved bit patterns included.
    fn from(id: u64) -> (r: Self) {
        ObjectId(id)
    }
}

impl vstd::std_specs::convert::FromSpecImpl<u64> for ObjectId {
    open spec fn obeys_from_spec() -> bool {
        true
    }

    open spec fn from_spec(id: u64) -> Self {
        ObjectId(id)
    }
}

impl From<ObjectId> for u64 {
    /// Unwraps the raw 64-bit value.
    fn from(id: ObjectId) -> (r: Self) {
        id.0
    }
}

impl vstd::std_specs::convert::FromSpecImpl<ObjectId> for u64 {
    open spec fn obeys_from_spec() -> bool {
        true
    }

    open spec fn from_spec(id: ObjectId) -> Self {
        id.0
    }
}

} // verus!

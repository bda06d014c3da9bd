//! The failure kinds a decode operation can surface.
//!
//! Every decoder in this crate returns a `Result` whose error is one of
//! these kinds; malformed input is always reported, never coerced to a
//! default value.

use vstd::prelude::*;

verus! {

/// Why a byte range could not be interpreted as the requested record.
#[derive(Clone, Copy, Debug, PartialEq, Eq, Structural)]
pub enum DecodeError {
    /// A requested field or element lies partly or fully outside the
    /// supplied buffer.
    OutOfBounds,
    /// A dynamically sized record's computed total size exceeds the buffer.
    TruncatedRecord,
    /// A tag or type value does not match any recognized enumeration value.
    UnknownRecordTag,
    /// The superblock magic field does not hold the expected constant; the
    /// buffer describes some other format rather than a corrupt record.
    InvalidMagic,
}

} // verus!

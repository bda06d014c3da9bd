//! The universal 17-byte sort key carried by every tree item.
//!
//! Keys order lexicographically on `(objectid, key_type, offset)` as
//! unsigned integers; the tree search layer relies on that order, so the
//! encoding of the three comparable fields is part of the on-disk contract.

use core::cmp::Ordering;
use vstd::bytes::*;
use vstd::prelude::*;

use crate::codec::{put_u64, put_u8, read_u64_at, read_u8_at};
use crate::error::DecodeError;

verus! {

/// The exact encoded width of a [`Key`].
pub const KEY_SIZE: usize = 17;

/// A key used to describe and locate any item in any tree.
#[derive(Clone, Copy, Debug, Hash, PartialEq, Eq, Structural)]
pub struct Key {
    /// The object this item belongs to.
    pub objectid: u64,
    /// What kind of item this is.
    pub key_type: u8,
    /// Meaning depends on `key_type`; the least significant comparand.
    pub offset: u64,
}

/// The key whose encoding starts at byte `off` of `s`.
pub open spec fn spec_key_at(s: Seq<u8>, off: int) -> Key
    recommends
        0 <= off,
        off + KEY_SIZE <= s.len(),
{
    Key {
        objectid: spec_u64_from_le_bytes(s.subrange(off, off + 8)),
        key_type: s[off + 8],
        offset: spec_u64_from_le_bytes(s.subrange(off + 9, off + 17)),
    }
}

/// The 17-byte encoding of `k`.
pub open spec fn spec_key_to_bytes(k: Key) -> Seq<u8> {
    spec_u64_to_le_bytes(k.objectid) + seq![k.key_type] + spec_u64_to_le_bytes(k.offset)
}

/// Lexicographic order on `(objectid, key_type, offset)`, each compared as
/// an unsigned integer.
pub open spec fn spec_key_cmp(a: Key, b: Key) -> Ordering {
    if a.objectid != b.objectid {
        if a.objectid < b.objectid {
            Ordering::Less
        } else {
            Ordering::Greater
        }
    } else if a.key_type != b.key_type {
        if a.key_type < b.key_type {
            Ordering::Less
        } else {
            Ordering::Greater
        }
    } else if a.offset != b.offset {
        if a.offset < b.offset {
            Ordering::Less
        } else {
            Ordering::Greater
        }
    } else {
        Ordering::Equal
    }
}

impl Key {
    /// Decodes the key found at byte `offset` of an enclosing buffer.
    pub fn decode_at(bytes: &[u8], offset: usize) -> (r: Key)
        requires
            offset + KEY_SIZE <= bytes@.len(),
        ensures
            r == spec_key_at(bytes@, offset as int),
    {
        let _n: usize = bytes.len();
        Key {
            objectid: read_u64_at(bytes, offset),
            key_type: read_u8_at(bytes, offset + 8),
            offset: read_u64_at(bytes, offset + 9),
        }
    }

    /// Decodes a key from the front of `bytes`; trailing bytes are ignored.
    pub fn from_bytes(bytes: &[u8]) -> (r: Result<Key, DecodeError>)
        ensures
            bytes@.len() >= KEY_SIZE ==> r == Ok::<Key, DecodeError>(spec_key_at(bytes@, 0)),
            bytes@.len() < KEY_SIZE ==> r == Err::<Key, DecodeError>(DecodeError::OutOfBounds),
    {
        if bytes.len() < KEY_SIZE {
            return Err(DecodeError::OutOfBounds);
        }
        Ok(Key::decode_at(bytes, 0))
    }

    /// Appends the 17-byte encoding of `self` to `out`.
    pub fn encode_into(&self, out: &mut Vec<u8>)
        ensures
            final(out)@ == old(out)@ + spec_key_to_bytes(*self),
    {
        put_u64(out, self.objectid);
        put_u8(out, self.key_type);
        put_u64(out, self.offset);
        proof {
            assert(out@ =~= old(out)@ + spec_key_to_bytes(*self));
        }
    }

    /// The 17-byte encoding of `self`.
    pub fn encode(&self) -> (r: Vec<u8>)
        ensures
            r@ == spec_key_to_bytes(*self),
            r@.len() == KEY_SIZE,
    {
        let mut out: Vec<u8> = Vec::new();
        self.encode_into(&mut out);
        proof {
            vstd::bytes::lemma_auto_spec_u64_to_from_le_bytes();
            assert(out@ =~= spec_key_to_bytes(*self));
        }
        out
    }

    /// Where `self` stands relative to `other` in the tree order:
    /// lexicographic on `(objectid, key_type, offset)` as unsigned integers.
    pub fn compare(&self, other: &Key) -> (r: Ordering)
        ensures
            r == spec_key_cmp(*self, *other),
    {
        if self.objectid != other.objectid {
            if self.objectid < other.objectid {
                Ordering::Less
            } else {
                Ordering::Greater
            }
        } else if self.key_type != other.key_type {
            if self.key_type < other.key_type {
                Ordering::Less
            } else {
                Ordering::Greater
            }
        } else if self.offset != other.offset {
            if self.offset < other.offset {
                Ordering::Less
            } else {
                Ordering::Greater
            }
        } else {
            Ordering::Equal
        }
    }
}

/// The key order is a total order: it is reflexive into `Equal` exactly
/// on equal keys, antisymmetric, and transitive, with `objectid`
/// dominating `key_type` and `key_type` dominating `offset`.
pub proof fn lemma_key_cmp_total_order(a: Key, b: Key, c: Key)
    ensures
        spec_key_cmp(a, b) == Ordering::Equal <==> a == b,
        spec_key_cmp(a, b) == Ordering::Less <==> spec_key_cmp(b, a) == Ordering::Greater,
        spec_key_cmp(a, b) == Ordering::Less && spec_key_cmp(b, c) == Ordering::Less
            ==> spec_key_cmp(a, c) == Ordering::Less,
{
}

/// Encoding a key and decoding the result returns the original key.
pub proof fn lemma_key_round_trip(k: Key)
    ensures
        spec_key_to_bytes(k).len() == KEY_SIZE,
        spec_key_at(spec_key_to_bytes(k), 0) == k,
{
    lemma_auto_spec_u64_to_from_le_bytes();
    let s = spec_key_to_bytes(k);
    assert(s.subrange(0, 8) =~= spec_u64_to_le_bytes(k.objectid));
    assert(s.subrange(9, 17) =~= spec_u64_to_le_bytes(k.offset));
}

} // verus!

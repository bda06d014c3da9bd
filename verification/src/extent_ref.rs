//! The tagged inline extent back-reference layer: a one-byte tag followed
//! by a payload whose shape is determined solely by the tag.
//!
//! The tag dispatches into one of four mutually exclusive shapes. Two of
//! them extend past the 9-byte header: the indirect data reference
//! reinterprets the payload slot as the first 8 bytes of a 28-byte
//! [`ExtentDataRef`], and the shared data reference is followed by a
//! 4-byte [`SharedDataRef`] count. Decoding validates the tag against the
//! closed enumeration and the buffer length before any field is
//! interpreted, and the resulting sum type can only expose the fields
//! valid for its tag.

use vstd::bytes::*;
use vstd::prelude::*;
use vstd::slice::slice_subrange;

use crate::codec::{put_u32, put_u64, put_u8, read_u32_at, read_u64_at, read_u8_at};
use crate::error::DecodeError;

verus! {

/// The tag marking an indirect reference to a tree block.
pub const TREE_BLOCK_REF_TAG: u8 = 176;

/// The tag marking an indirect reference to a data extent.
pub const EXTENT_DATA_REF_TAG: u8 = 178;

/// The tag marking a shared reference to a tree block.
pub const SHARED_BLOCK_REF_TAG: u8 = 182;

/// The tag marking a shared reference to a data extent.
pub const SHARED_DATA_REF_TAG: u8 = 184;

/// The exact encoded width of an [`ExtentDataRef`].
pub const EXTENT_DATA_REF_SIZE: usize = 28;

/// The exact encoded width of a [`SharedDataRef`].
pub const SHARED_DATA_REF_SIZE: usize = 4;

/// The exact encoded width of an [`ExtentInlineRefHeader`].
pub const EXTENT_INLINE_REF_HEADER_SIZE: usize = 9;

/// The closed set of inline reference tags.
#[derive(Clone, Copy, Debug, Hash, PartialEq, Eq, Structural)]
pub enum ExtentInlineRefType {
    /// The reference is indirect for a tree block; the payload holds the
    /// object ID of the tree root that allocated the block.
    TreeBlockRef,
    /// The reference is indirect for a data extent; an [`ExtentDataRef`]
    /// is located immediately after the tag and overlaps the payload slot.
    ExtentDataRef,
    /// The reference is shared for a tree block; the payload holds the
    /// byte offset of the node one level above in the tree.
    SharedBlockRef,
    /// The reference is shared for a data extent; the payload holds the
    /// byte offset of the metadata leaf describing the extent and is
    /// followed by a [`SharedDataRef`] count.
    SharedDataRef,
}

impl ExtentInlineRefType {
    /// The on-disk tag value of this reference type.
    pub open spec fn spec_tag(self) -> u8 {
        match self {
            ExtentInlineRefType::TreeBlockRef => TREE_BLOCK_REF_TAG,
            ExtentInlineRefType::ExtentDataRef => EXTENT_DATA_REF_TAG,
            ExtentInlineRefType::SharedBlockRef => SHARED_BLOCK_REF_TAG,
            ExtentInlineRefType::SharedDataRef => SHARED_DATA_REF_TAG,
        }
    }

    /// The on-disk tag value of this reference type.
    #[verifier::when_used_as_spec(spec_tag)]
    pub fn tag(self) -> (r: u8)
        ensures
            r == self.spec_tag(),
    {
        match self {
            ExtentInlineRefType::TreeBlockRef => TREE_BLOCK_REF_TAG,
            ExtentInlineRefType::ExtentDataRef => EXTENT_DATA_REF_TAG,
            ExtentInlineRefType::SharedBlockRef => SHARED_BLOCK_REF_TAG,
            ExtentInlineRefType::SharedDataRef => SHARED_DATA_REF_TAG,
        }
    }

    /// The reference type denoted by `tag`, if `tag` is in the closed set.
    pub open spec fn spec_from_tag(tag: u8) -> Option<ExtentInlineRefType> {
        if tag == TREE_BLOCK_REF_TAG {
            Some(ExtentInlineRefType::TreeBlockRef)
        } else if tag == EXTENT_DATA_REF_TAG {
            Some(ExtentInlineRefType::ExtentDataRef)
        } else if tag == SHARED_BLOCK_REF_TAG {
            Some(ExtentInlineRefType::SharedBlockRef)
        } else if tag == SHARED_DATA_REF_TAG {
            Some(ExtentInlineRefType::SharedDataRef)
        } else {
            None
        }
    }

    /// Looks `tag` up in the closed set; any other value is rejected.
    pub fn from_tag(tag: u8) -> (r: Option<ExtentInlineRefType>)
        ensures
            r == ExtentInlineRefType::spec_from_tag(tag),
            r matches Some(t) ==> t.tag() == tag,
    {
        match tag {
            TREE_BLOCK_REF_TAG => Some(ExtentInlineRefType::TreeBlockRef),
            EXTENT_DATA_REF_TAG => Some(ExtentInlineRefType::ExtentDataRef),
            SHARED_BLOCK_REF_TAG => Some(ExtentInlineRefType::SharedBlockRef),
            SHARED_DATA_REF_TAG => Some(ExtentInlineRefType::SharedDataRef),
            _ => None,
        }
    }
}

/// True exactly when `tag` is one of the four defined reference tags.
pub open spec fn spec_is_inline_ref_tag(tag: u8) -> bool {
    ExtentInlineRefType::spec_from_tag(tag) is Some
}

/// Contains an indirect back reference for a file data extent.
#[derive(Clone, Copy, Debug, Hash, PartialEq, Eq, Structural)]
pub struct ExtentDataRef {
    /// The object ID of the file tree that references this extent.
    pub root: u64,
    /// The object ID of the inode whose extent data references this
    /// extent.
    pub objectid: u64,
    /// The offset within the file that corresponds to this extent.
    pub offset: u64,
    /// The reference count being held.
    pub count: u32,
}

/// The extent data reference whose encoding starts at byte `off` of `s`.
pub open spec fn spec_extent_data_ref_at(s: Seq<u8>, off: int) -> ExtentDataRef
    recommends
        0 <= off,
        off + EXTENT_DATA_REF_SIZE <= s.len(),
{
    ExtentDataRef {
        root: spec_u64_from_le_bytes(s.subrange(off, off + 8)),
        objectid: spec_u64_from_le_bytes(s.subrange(off + 8, off + 16)),
        offset: spec_u64_from_le_bytes(s.subrange(off + 16, off + 24)),
        count: spec_u32_from_le_bytes(s.subrange(off + 24, off + 28)),
    }
}

/// The 28-byte encoding of `r`.
pub open spec fn spec_extent_data_ref_to_bytes(r: ExtentDataRef) -> Seq<u8> {
    spec_u64_to_le_bytes(r.root) + spec_u64_to_le_bytes(r.objectid) + spec_u64_to_le_bytes(r.offset)
        + spec_u32_to_le_bytes(r.count)
}

impl ExtentDataRef {
    /// Decodes the extent data reference found at byte `offset` of an
    /// enclosing buffer.
    pub fn decode_at(bytes: &[u8], offset: usize) -> (r: ExtentDataRef)
        requires
            offset + EXTENT_DATA_REF_SIZE <= bytes@.len(),
        ensures
            r == spec_extent_data_ref_at(bytes@, offset as int),
    {
        let _n: usize = bytes.len();
        ExtentDataRef {
            root: read_u64_at(bytes, offset),
            objectid: read_u64_at(bytes, offset + 8),
            offset: read_u64_at(bytes, offset + 16),
            count: read_u32_at(bytes, offset + 24),
        }
    }

    /// Decodes an extent data reference from the front of `bytes`;
    /// trailing bytes are ignored.
    pub fn from_bytes(bytes: &[u8]) -> (r: Result<ExtentDataRef, DecodeError>)
        ensures
            bytes@.len() >= EXTENT_DATA_REF_SIZE ==> r == Ok::<ExtentDataRef, DecodeError>(
                spec_extent_data_ref_at(bytes@, 0),
            ),
            bytes@.len() < EXTENT_DATA_REF_SIZE ==> r == Err::<ExtentDataRef, DecodeError>(
                DecodeError::OutOfBounds,
            ),
    {
        if bytes.len() < EXTENT_DATA_REF_SIZE {
            return Err(DecodeError::OutOfBounds);
        }
        Ok(ExtentDataRef::decode_at(bytes, 0))
    }

    /// Appends the 28-byte encoding of `self` to `out`.
    pub fn encode_into(&self, out: &mut Vec<u8>)
        ensures
            final(out)@ == old(out)@ + spec_extent_data_ref_to_bytes(*self),
    {
        put_u64(out, self.root);
        put_u64(out, self.objectid);
        put_u64(out, self.offset);
        put_u32(out, self.count);
        proof {
            assert(out@ =~= old(out)@ + spec_extent_data_ref_to_bytes(*self));
        }
    }

    /// The 28-byte encoding of `self`.
    pub fn encode(&self) -> (r: Vec<u8>)
        ensures
            r@ == spec_extent_data_ref_to_bytes(*self),
            r@.len() == EXTENT_DATA_REF_SIZE,
    {
        let mut out: Vec<u8> = Vec::new();
        self.encode_into(&mut out);
        proof {
            lemma_auto_spec_u64_to_from_le_bytes();
            lemma_auto_spec_u32_to_from_le_bytes();
            assert(out@ =~= spec_extent_data_ref_to_bytes(*self));
        }
        out
    }
}

/// Encoding an extent data reference and decoding the result returns the
/// original reference.
pub proof fn lemma_extent_data_ref_round_trip(r: ExtentDataRef)
    ensures
        spec_extent_data_ref_to_bytes(r).len() == EXTENT_DATA_REF_SIZE,
        spec_extent_data_ref_at(spec_extent_data_ref_to_bytes(r), 0) == r,
{
    lemma_auto_spec_u64_to_from_le_bytes();
    lemma_auto_spec_u32_to_from_le_bytes();
    let s = spec_extent_data_ref_to_bytes(r);
    assert(s.subrange(0, 8) =~= spec_u64_to_le_bytes(r.root));
    assert(s.subrange(8, 16) =~= spec_u64_to_le_bytes(r.objectid));
    assert(s.subrange(16, 24) =~= spec_u64_to_le_bytes(r.offset));
    assert(s.subrange(24, 28) =~= spec_u32_to_le_bytes(r.count));
}

/// The reference count for a shared back reference to a file data extent;
/// follows the inline reference header when the tag is
/// [`SHARED_DATA_REF_TAG`].
#[derive(Clone, Copy, Debug, Hash, PartialEq, Eq, Structural)]
pub struct SharedDataRef {
    /// The reference count.
    pub count: u32,
}

/// The shared data reference count whose encoding starts at byte `off` of
/// `s`.
pub open spec fn spec_shared_data_ref_at(s: Seq<u8>, off: int) -> SharedDataRef
    recommends
        0 <= off,
        off + SHARED_DATA_REF_SIZE <= s.len(),
{
    SharedDataRef { count: spec_u32_from_le_bytes(s.subrange(off, off + 4)) }
}

impl SharedDataRef {
    /// Decodes the count found at byte `offset` of an enclosing buffer.
    pub fn decode_at(bytes: &[u8], offset: usize) -> (r: SharedDataRef)
        requires
            offset + SHARED_DATA_REF_SIZE <= bytes@.len(),
        ensures
            r == spec_shared_data_ref_at(bytes@, offset as int),
    {
        let _n: usize = bytes.len();
        SharedDataRef { count: read_u32_at(bytes, offset) }
    }

    /// Decodes a shared data reference count from the front of `bytes`;
    /// trailing bytes are ignored.
    pub fn from_bytes(bytes: &[u8]) -> (r: Result<SharedDataRef, DecodeError>)
        ensures
            bytes@.len() >= SHARED_DATA_REF_SIZE ==> r == Ok::<SharedDataRef, DecodeError>(
                spec_shared_data_ref_at(bytes@, 0),
            ),
            bytes@.len() < SHARED_DATA_REF_SIZE ==> r == Err::<SharedDataRef, DecodeError>(
                DecodeError::OutOfBounds,
            ),
    {
        if bytes.len() < SHARED_DATA_REF_SIZE {
            return Err(DecodeError::OutOfBounds);
        }
        Ok(SharedDataRef::decode_at(bytes, 0))
    }
}

/// The tail of a shared data reference: the metadata leaf offset followed
/// by the reference count.
#[derive(Clone, Copy, Debug, Hash, PartialEq, Eq, Structural)]
pub struct ExtentInlineRefSharedDataTail {
    /// The byte offset of the metadata leaf that contains the extent data
    /// item describing this extent.
    pub offset: u64,
    /// The shared data reference count.
    pub shared_data_ref: SharedDataRef,
}

/// The shared data tail whose encoding starts at byte `off` of `s`.
pub open spec fn spec_shared_data_tail_at(s: Seq<u8>, off: int) -> ExtentInlineRefSharedDataTail
    recommends
        0 <= off,
        off + 12 <= s.len(),
{
    ExtentInlineRefSharedDataTail {
        offset: spec_u64_from_le_bytes(s.subrange(off, off + 8)),
        shared_data_ref: spec_shared_data_ref_at(s, off + 8),
    }
}

/// The header common to every inline reference: the tag and the 8-byte
/// payload slot.
#[derive(Clone, Copy, Debug, Hash, PartialEq, Eq, Structural)]
pub struct ExtentInlineRefHeader {
    /// The type of reference, which determines how `offset` is read.
    pub ref_type: ExtentInlineRefType,
    /// The raw 64-bit payload slot; its meaning depends on `ref_type`.
    pub offset: u64,
}

/// What decoding the 9-byte inline reference header from `s` yields.
pub open spec fn spec_extent_inline_ref_header(s: Seq<u8>) -> Result<
    ExtentInlineRefHeader,
    DecodeError,
> {
    if s.len() < 1 {
        Err(DecodeError::OutOfBounds)
    } else if !spec_is_inline_ref_tag(s[0]) {
        Err(DecodeError::UnknownRecordTag)
    } else if s.len() < EXTENT_INLINE_REF_HEADER_SIZE {
        Err(DecodeError::TruncatedRecord)
    } else {
        Ok(
            ExtentInlineRefHeader {
                ref_type: ExtentInlineRefType::spec_from_tag(s[0])->0,
                offset: spec_u64_from_le_bytes(s.subrange(1, 9)),
            },
        )
    }
}

impl ExtentInlineRefHeader {
    /// Decodes the 9-byte header from the front of `bytes`: the tag is
    /// validated against the closed enumeration before anything else is
    /// read, and trailing bytes are ignored.
    pub fn from_bytes(bytes: &[u8]) -> (r: Result<ExtentInlineRefHeader, DecodeError>)
        ensures
            r == spec_extent_inline_ref_header(bytes@),
    {
        let _n: usize = bytes.len();
        if bytes.len() < 1 {
            return Err(DecodeError::OutOfBounds);
        }
        let tag = read_u8_at(bytes, 0);
        let ref_type = match ExtentInlineRefType::from_tag(tag) {
            Some(t) => t,
            None => { return Err(DecodeError::UnknownRecordTag) },
        };
        if bytes.len() < EXTENT_INLINE_REF_HEADER_SIZE {
            return Err(DecodeError::TruncatedRecord);
        }
        Ok(ExtentInlineRefHeader { ref_type, offset: read_u64_at(bytes, 1) })
    }
}

/// An inline reference known to be a tree block reference.
#[derive(Clone, Copy, Debug, Hash, PartialEq, Eq, Structural)]
pub struct ExtentInlineTreeBlockRef {
    /// The object ID of the tree root that allocated the block.
    pub offset: u64,
}

/// An inline reference known to be a shared block reference.
#[derive(Clone, Copy, Debug, Hash, PartialEq, Eq, Structural)]
pub struct ExtentInlineSharedBlockRef {
    /// The byte offset of the node one level above in the tree.
    pub offset: u64,
}

/// An inline reference known to be an extent data reference.
#[derive(Clone, Copy, Debug, Hash, PartialEq, Eq, Structural)]
pub struct ExtentInlineExtentDataRef {
    /// The extent data reference that overlaps the payload slot.
    pub extent_data_ref: ExtentDataRef,
}

/// An inline reference known to be a shared data reference.
#[derive(Clone, Copy, Debug, Hash, PartialEq, Eq, Structural)]
pub struct ExtentInlineSharedDataRef {
    /// The metadata leaf offset and the reference count.
    pub shared_data_tail: ExtentInlineRefSharedDataTail,
}

/// A fully decoded inline extent back-reference: one constructor per tag
/// value, each holding only the fields valid for that tag.
#[derive(Clone, Copy, Debug, Hash, PartialEq, Eq, Structural)]
pub enum ExtentInlineRef {
    /// Indirect reference to a tree block: the object ID of the tree root
    /// that allocated the block.
    TreeBlockRef {
        /// The object ID of the owning tree root.
        offset: u64,
    },
    /// Indirect reference to a data extent.
    ExtentDataRef {
        /// The 28-byte reference record that overlaps the payload slot.
        extent_data_ref: ExtentDataRef,
    },
    /// Shared reference to a tree block: the byte offset of the parent
    /// node.
    SharedBlockRef {
        /// The byte offset of the node one level above in the tree.
        offset: u64,
    },
    /// Shared reference to a data extent: the metadata leaf offset
    /// followed by a reference count.
    SharedDataRef {
        /// The metadata leaf offset and the reference count.
        shared_data_tail: ExtentInlineRefSharedDataTail,
    },
}

/// What decoding the bytes that follow the tag yields, for a given `tag`.
/// An unknown tag fails regardless of the buffer; a known tag needs 8, 28,
/// 8 or 12 bytes of body and ignores anything past them.
pub open spec fn spec_extent_inline_ref_body(tag: u8, s: Seq<u8>) -> Result<
    ExtentInlineRef,
    DecodeError,
> {
    if tag == TREE_BLOCK_REF_TAG {
        if s.len() >= 8 {
            Ok(ExtentInlineRef::TreeBlockRef { offset: spec_u64_from_le_bytes(s.subrange(0, 8)) })
        } else {
            Err(DecodeError::TruncatedRecord)
        }
    } else if tag == EXTENT_DATA_REF_TAG {
        if s.len() >= EXTENT_DATA_REF_SIZE {
            Ok(ExtentInlineRef::ExtentDataRef { extent_data_ref: spec_extent_data_ref_at(s, 0) })
        } else {
            Err(DecodeError::TruncatedRecord)
        }
    } else if tag == SHARED_BLOCK_REF_TAG {
        if s.len() >= 8 {
            Ok(ExtentInlineRef::SharedBlockRef { offset: spec_u64_from_le_bytes(s.subrange(0, 8)) })
        } else {
            Err(DecodeError::TruncatedRecord)
        }
    } else if tag == SHARED_DATA_REF_TAG {
        if s.len() >= 12 {
            Ok(ExtentInlineRef::SharedDataRef { shared_data_tail: spec_shared_data_tail_at(s, 0) })
        } else {
            Err(DecodeError::TruncatedRecord)
        }
    } else {
        Err(DecodeError::UnknownRecordTag)
    }
}

/// What decoding a whole inline reference (tag byte included) from `s`
/// yields.
pub open spec fn spec_extent_inline_ref(s: Seq<u8>) -> Result<ExtentInlineRef, DecodeError> {
    if s.len() < 1 {
        Err(DecodeError::OutOfBounds)
    } else {
        spec_extent_inline_ref_body(s[0], s.subrange(1, s.len() as int))
    }
}

/// The encoding of `r`: the tag byte followed by the variant's payload.
pub open spec fn spec_extent_inline_ref_to_bytes(r: ExtentInlineRef) -> Seq<u8> {
    match r {
        ExtentInlineRef::TreeBlockRef { offset } => seq![TREE_BLOCK_REF_TAG]
            + spec_u64_to_le_bytes(offset),
        ExtentInlineRef::ExtentDataRef { extent_data_ref } => seq![EXTENT_DATA_REF_TAG]
            + spec_extent_data_ref_to_bytes(extent_data_ref),
        ExtentInlineRef::SharedBlockRef { offset } => seq![SHARED_BLOCK_REF_TAG]
            + spec_u64_to_le_bytes(offset),
        ExtentInlineRef::SharedDataRef { shared_data_tail } => seq![SHARED_DATA_REF_TAG]
            + spec_u64_to_le_bytes(shared_data_tail.offset) + spec_u32_to_le_bytes(
            shared_data_tail.shared_data_ref.count,
        ),
    }
}

impl ExtentInlineRef {
    /// Decodes the reference body that follows an already-read tag byte.
    /// The tag is validated first, so an unknown tag fails with
    /// [`DecodeError::UnknownRecordTag`] whatever the buffer holds; a
    /// known tag whose body is too short fails with
    /// [`DecodeError::TruncatedRecord`]; bytes past the body are ignored.
    pub fn decode_tagged(tag: u8, body: &[u8]) -> (r: Result<ExtentInlineRef, DecodeError>)
        ensures
            r == spec_extent_inline_ref_body(tag, body@),
    {
        let _n: usize = body.len();
        let ref_type = match ExtentInlineRefType::from_tag(tag) {
            Some(t) => t,
            None => { return Err(DecodeError::UnknownRecordTag) },
        };
        match ref_type {
            ExtentInlineRefType::TreeBlockRef => {
                if body.len() < 8 {
                    Err(DecodeError::TruncatedRecord)
                } else {
                    Ok(ExtentInlineRef::TreeBlockRef { offset: read_u64_at(body, 0) })
                }
            },
            ExtentInlineRefType::ExtentDataRef => {
                if body.len() < EXTENT_DATA_REF_SIZE {
                    Err(DecodeError::TruncatedRecord)
                } else {
                    Ok(
                        ExtentInlineRef::ExtentDataRef {
                            extent_data_ref: ExtentDataRef::decode_at(body, 0),
                        },
                    )
                }
            },
            ExtentInlineRefType::SharedBlockRef => {
                if body.len() < 8 {
                    Err(DecodeError::TruncatedRecord)
                } else {
                    Ok(ExtentInlineRef::SharedBlockRef { offset: read_u64_at(body, 0) })
                }
            },
            ExtentInlineRefType::SharedDataRef => {
                if body.len() < 12 {
                    Err(DecodeError::TruncatedRecord)
                } else {
                    Ok(
                        ExtentInlineRef::SharedDataRef {
                            shared_data_tail: ExtentInlineRefSharedDataTail {
                                offset: read_u64_at(body, 0),
                                shared_data_ref: SharedDataRef::decode_at(body, 8),
                            },
                        },
                    )
                }
            },
        }
    }

    /// Decodes a whole inline reference from the front of `bytes`: the
    /// tag byte, then the body the tag calls for.
    pub fn from_bytes(bytes: &[u8]) -> (r: Result<ExtentInlineRef, DecodeError>)
        ensures
            r == spec_extent_inline_ref(bytes@),
    {
        let _n: usize = bytes.len();
        if bytes.len() < 1 {
            return Err(DecodeError::OutOfBounds);
        }
        let tag = read_u8_at(bytes, 0);
        let body = slice_subrange(bytes, 1, bytes.len());
        ExtentInlineRef::decode_tagged(tag, body)
    }

    /// The reference type of this variant.
    pub fn ref_type(&self) -> (r: ExtentInlineRefType)
        ensures
            r == match *self {
                ExtentInlineRef::TreeBlockRef { .. } => ExtentInlineRefType::TreeBlockRef,
                ExtentInlineRef::ExtentDataRef { .. } => ExtentInlineRefType::ExtentDataRef,
                ExtentInlineRef::SharedBlockRef { .. } => ExtentInlineRefType::SharedBlockRef,
                ExtentInlineRef::SharedDataRef { .. } => ExtentInlineRefType::SharedDataRef,
            },
    {
        match *self {
            ExtentInlineRef::TreeBlockRef { .. } => ExtentInlineRefType::TreeBlockRef,
            ExtentInlineRef::ExtentDataRef { .. } => ExtentInlineRefType::ExtentDataRef,
            ExtentInlineRef::SharedBlockRef { .. } => ExtentInlineRefType::SharedBlockRef,
            ExtentInlineRef::SharedDataRef { .. } => ExtentInlineRefType::SharedDataRef,
        }
    }

    /// The number of bytes this reference occupies on disk, tag included:
    /// 9, 29, 9 or 13.
    pub open spec fn spec_encoded_len(self) -> int {
        match self {
            ExtentInlineRef::TreeBlockRef { .. } => 9,
            ExtentInlineRef::ExtentDataRef { .. } => 29,
            ExtentInlineRef::SharedBlockRef { .. } => 9,
            ExtentInlineRef::SharedDataRef { .. } => 13,
        }
    }

    /// The number of bytes this reference occupies on disk, tag included.
    pub fn encoded_len(&self) -> (r: usize)
        ensures
            r == self.spec_encoded_len(),
    {
        match *self {
            ExtentInlineRef::TreeBlockRef { .. } => 9,
            ExtentInlineRef::ExtentDataRef { .. } => 29,
            ExtentInlineRef::SharedBlockRef { .. } => 9,
            ExtentInlineRef::SharedDataRef { .. } => 13,
        }
    }

    /// The payload slot value, for the variants whose payload is a plain
    /// offset or object ID; absent for the extent data reference, whose
    /// payload slot holds no meaningful 64-bit value of its own.
    pub fn offset(&self) -> (r: Option<u64>)
        ensures
            r == match *self {
                ExtentInlineRef::TreeBlockRef { offset } => Some(offset),
                ExtentInlineRef::ExtentDataRef { .. } => None::<u64>,
                ExtentInlineRef::SharedBlockRef { offset } => Some(offset),
                ExtentInlineRef::SharedDataRef { shared_data_tail } => Some(
                    shared_data_tail.offset,
                ),
            },
    {
        match *self {
            ExtentInlineRef::TreeBlockRef { offset } => Some(offset),
            ExtentInlineRef::ExtentDataRef { .. } => None,
            ExtentInlineRef::SharedBlockRef { offset } => Some(offset),
            ExtentInlineRef::SharedDataRef { shared_data_tail } => Some(shared_data_tail.offset),
        }
    }

    /// The extent data reference, exactly when this is the
    /// extent-data-reference variant.
    pub fn extent_data_ref(&self) -> (r: Option<ExtentDataRef>)
        ensures
            r == match *self {
                ExtentInlineRef::ExtentDataRef { extent_data_ref } => Some(extent_data_ref),
                _ => None::<ExtentDataRef>,
            },
    {
        match *self {
            ExtentInlineRef::ExtentDataRef { extent_data_ref } => Some(extent_data_ref),
            _ => None,
        }
    }

    /// The shared data tail, exactly when this is the
    /// shared-data-reference variant.
    pub fn shared_data_tail(&self) -> (r: Option<ExtentInlineRefSharedDataTail>)
        ensures
            r == match *self {
                ExtentInlineRef::SharedDataRef { shared_data_tail } => Some(shared_data_tail),
                _ => None::<ExtentInlineRefSharedDataTail>,
            },
    {
        match *self {
            ExtentInlineRef::SharedDataRef { shared_data_tail } => Some(shared_data_tail),
            _ => None,
        }
    }

    /// The tree block reference, exactly when this is the
    /// tree-block-reference variant.
    pub fn as_tree_block_ref(&self) -> (r: Option<ExtentInlineTreeBlockRef>)
        ensures
            r == match *self {
                ExtentInlineRef::TreeBlockRef { offset } => Some(ExtentInlineTreeBlockRef { offset }),
                _ => None::<ExtentInlineTreeBlockRef>,
            },
    {
        match *self {
            ExtentInlineRef::TreeBlockRef { offset } => Some(ExtentInlineTreeBlockRef { offset }),
            _ => None,
        }
    }

    /// The shared block reference, exactly when this is the
    /// shared-block-reference variant.
    pub fn as_shared_block_ref(&self) -> (r: Option<ExtentInlineSharedBlockRef>)
        ensures
            r == match *self {
                ExtentInlineRef::SharedBlockRef { offset } => Some(
                    ExtentInlineSharedBlockRef { offset },
                ),
                _ => None::<ExtentInlineSharedBlockRef>,
            },
    {
        match *self {
            ExtentInlineRef::SharedBlockRef { offset } => Some(ExtentInlineSharedBlockRef { offset }),
            _ => None,
        }
    }

    /// The extent data reference wrapper, exactly when this is the
    /// extent-data-reference variant.
    pub fn as_extent_data_ref(&self) -> (r: Option<ExtentInlineExtentDataRef>)
        ensures
            r == match *self {
                ExtentInlineRef::ExtentDataRef { extent_data_ref } => Some(
                    ExtentInlineExtentDataRef { extent_data_ref },
                ),
                _ => None::<ExtentInlineExtentDataRef>,
            },
    {
        match *self {
            ExtentInlineRef::ExtentDataRef { extent_data_ref } => Some(
                ExtentInlineExtentDataRef { extent_data_ref },
            ),
            _ => None,
        }
    }

    /// The shared data reference wrapper, exactly when this is the
    /// shared-data-reference variant.
    pub fn as_shared_data_ref(&self) -> (r: Option<ExtentInlineSharedDataRef>)
        ensures
            r == match *self {
                ExtentInlineRef::SharedDataRef { shared_data_tail } => Some(
                    ExtentInlineSharedDataRef { shared_data_tail },
                ),
                _ => None::<ExtentInlineSharedDataRef>,
            },
    {
        match *self {
            ExtentInlineRef::SharedDataRef { shared_data_tail } => Some(
                ExtentInlineSharedDataRef { shared_data_tail },
            ),
            _ => None,
        }
    }

    /// The encoding of `self`: the tag byte followed by the variant's
    /// payload bytes.
    pub fn encode(&self) -> (r: Vec<u8>)
        ensures
            r@ == spec_extent_inline_ref_to_bytes(*self),
            r@.len() == self.spec_encoded_len(),
    {
        let mut out: Vec<u8> = Vec::new();
        match *self {
            ExtentInlineRef::TreeBlockRef { offset } => {
                put_u8(&mut out, TREE_BLOCK_REF_TAG);
                put_u64(&mut out, offset);
            },
            ExtentInlineRef::ExtentDataRef { extent_data_ref } => {
                put_u8(&mut out, EXTENT_DATA_REF_TAG);
                extent_data_ref.encode_into(&mut out);
            },
            ExtentInlineRef::SharedBlockRef { offset } => {
                put_u8(&mut out, SHARED_BLOCK_REF_TAG);
                put_u64(&mut out, offset);
            },
            ExtentInlineRef::SharedDataRef { shared_data_tail } => {
                put_u8(&mut out, SHARED_DATA_REF_TAG);
                put_u64(&mut out, shared_data_tail.offset);
                put_u32(&mut out, shared_data_tail.shared_data_ref.count);
            },
        }
        proof {
            lemma_auto_spec_u64_to_from_le_bytes();
            lemma_auto_spec_u32_to_from_le_bytes();
            assert(out@ =~= spec_extent_inline_ref_to_bytes(*self));
        }
        out
    }
}

/// Encoding an inline reference and decoding the result, with the tag
/// byte in front, returns the original reference, whichever of the four
/// variants it is.
pub proof fn lemma_extent_inline_ref_round_trip(r: ExtentInlineRef)
    ensures
        spec_extent_inline_ref_to_bytes(r).len() == r.spec_encoded_len(),
        spec_extent_inline_ref(spec_extent_inline_ref_to_bytes(r)) == Ok::<
            ExtentInlineRef,
            DecodeError,
        >(r),
{
    lemma_auto_spec_u64_to_from_le_bytes();
    lemma_auto_spec_u32_to_from_le_bytes();
    let s = spec_extent_inline_ref_to_bytes(r);
    let body = s.subrange(1, s.len() as int);
    match r {
        ExtentInlineRef::TreeBlockRef { offset } => {
            assert(body.subrange(0, 8) =~= spec_u64_to_le_bytes(offset));
        },
        ExtentInlineRef::ExtentDataRef { extent_data_ref } => {
            assert(body =~= spec_extent_data_ref_to_bytes(extent_data_ref));
            lemma_extent_data_ref_round_trip(extent_data_ref);
        },
        ExtentInlineRef::SharedBlockRef { offset } => {
            assert(body.subrange(0, 8) =~= spec_u64_to_le_bytes(offset));
        },
        ExtentInlineRef::SharedDataRef { shared_data_tail } => {
            assert(body.subrange(0, 8) =~= spec_u64_to_le_bytes(shared_data_tail.offset));
            assert(body.subrange(8, 12) =~= spec_u32_to_le_bytes(
                shared_data_tail.shared_data_ref.count,
            ));
        },
    }
}

} // verus!

//! Chunks and stripes: the mapping from a virtualized byte range to a set
//! of stripes on individual backing devices.
//!
//! On disk a chunk item is a 48-byte fixed part followed by as many
//! 32-byte [`Stripe`] records as its `num_stripes` field says — a count
//! that lives in the already-decoded fixed part, not in the trailing
//! bytes. [`ChunkDynamic`] pairs the fixed part with the decoded stripe
//! array.

use vstd::bytes::*;
use vstd::prelude::*;

use crate::codec::{put_bytes, put_u16, put_u32, put_u64, read_bytes_at, read_u16_at, read_u32_at, read_u64_at};
use crate::dynamic::{dynamic_tail_bounds, spec_dynamic_total};
use crate::error::DecodeError;
use crate::UUID_SIZE;

verus! {

/// The exact encoded width of a [`Stripe`].
pub const STRIPE_SIZE: usize = 32;

/// The encoded width of the fixed part of a [`Chunk`], preceding the
/// stripe array.
pub const CHUNK_SIZE: usize = 48;

/// Defines the backing device storage that composes a [`Chunk`].
#[derive(Clone, Debug, Hash, PartialEq, Eq)]
pub struct Stripe {
    /// The ID of the device that contains this stripe.
    pub devid: u64,
    /// Location of the start of the stripe, in bytes.
    pub offset: u64,
    /// UUID of the device that contains this stripe; always
    /// [`UUID_SIZE`] bytes.
    pub dev_uuid: Vec<u8>,
}

/// The mathematical image of a [`Stripe`].
pub struct StripeView {
    /// The ID of the containing device.
    pub devid: u64,
    /// The start of the stripe, in bytes.
    pub offset: u64,
    /// The bytes of the containing device's UUID.
    pub dev_uuid: Seq<u8>,
}

impl View for Stripe {
    type V = StripeView;

    open spec fn view(&self) -> StripeView {
        StripeView { devid: self.devid, offset: self.offset, dev_uuid: self.dev_uuid@ }
    }
}

/// The stripe whose encoding starts at byte `off` of `s`.
pub open spec fn spec_stripe_at(s: Seq<u8>, off: int) -> StripeView
    recommends
        0 <= off,
        off + STRIPE_SIZE <= s.len(),
{
    StripeView {
        devid: spec_u64_from_le_bytes(s.subrange(off, off + 8)),
        offset: spec_u64_from_le_bytes(s.subrange(off + 8, off + 16)),
        dev_uuid: s.subrange(off + 16, off + 32),
    }
}

impl Stripe {
    /// Decodes the stripe found at byte `offset` of an enclosing buffer.
    pub fn decode_at(bytes: &[u8], offset: usize) -> (r: Stripe)
        requires
            offset + STRIPE_SIZE <= bytes@.len(),
        ensures
            r@ == spec_stripe_at(bytes@, offset as int),
    {
        let _n: usize = bytes.len();
        Stripe {
            devid: read_u64_at(bytes, offset),
            offset: read_u64_at(bytes, offset + 8),
            dev_uuid: read_bytes_at(bytes, offset + 16, UUID_SIZE),
        }
    }

    /// Decodes a stripe from the front of `bytes`; trailing bytes are
    /// ignored.
    pub fn from_bytes(bytes: &[u8]) -> (r: Result<Stripe, DecodeError>)
        ensures
            bytes@.len() >= STRIPE_SIZE ==> (r matches Ok(st) && st@ == spec_stripe_at(bytes@, 0)),
            bytes@.len() < STRIPE_SIZE ==> r == Err::<Stripe, DecodeError>(DecodeError::OutOfBounds),
    {
        if bytes.len() < STRIPE_SIZE {
            return Err(DecodeError::OutOfBounds);
        }
        Ok(Stripe::decode_at(bytes, 0))
    }

    /// Appends the 32-byte encoding of `self` to `out`.
    pub fn encode_into(&self, out: &mut Vec<u8>)
        requires
            self@.dev_uuid.len() == UUID_SIZE,
        ensures
            final(out)@ == old(out)@ + spec_stripe_to_bytes(self@),
    {
        put_u64(out, self.devid);
        put_u64(out, self.offset);
        put_bytes(out, self.dev_uuid.as_slice());
        proof {
            assert(out@ =~= old(out)@ + spec_stripe_to_bytes(self@));
        }
    }
}

/// The 32-byte encoding of the stripe image `v`.
pub open spec fn spec_stripe_to_bytes(v: StripeView) -> Seq<u8>
    recommends
        v.dev_uuid.len() == UUID_SIZE,
{
    spec_u64_to_le_bytes(v.devid) + spec_u64_to_le_bytes(v.offset) + v.dev_uuid
}

/// Encoding a stripe and decoding the result returns the original stripe.
pub proof fn lemma_stripe_round_trip(v: StripeView)
    requires
        v.dev_uuid.len() == UUID_SIZE,
    ensures
        spec_stripe_to_bytes(v).len() == STRIPE_SIZE,
        spec_stripe_at(spec_stripe_to_bytes(v), 0) == v,
{
    lemma_auto_spec_u64_to_from_le_bytes();
    let s = spec_stripe_to_bytes(v);
    assert(s.subrange(0, 8) =~= spec_u64_to_le_bytes(v.devid));
    assert(s.subrange(8, 16) =~= spec_u64_to_le_bytes(v.offset));
    assert(s.subrange(16, 32) =~= v.dev_uuid);
    assert(spec_stripe_at(s, 0) == v);
}

/// The fixed part of a chunk item: the mapping parameters and the stripe
/// counts, without the trailing stripe array.
#[derive(Clone, Copy, Debug, Hash, PartialEq, Eq, Structural)]
pub struct Chunk {
    /// The size of this chunk, in bytes.
    pub length: u64,
    /// The object ID of the root referencing this chunk; always an extent
    /// root.
    pub owner: u64,
    /// The replication stripe length.
    pub stripe_len: u64,
    /// Flags indicating allocation type and replication policy.
    pub chunk_type: u64,
    /// The optimal I/O alignment for this chunk.
    pub io_align: u32,
    /// The optimal I/O width for this chunk.
    pub io_width: u32,
    /// The minimal I/O size for this chunk.
    pub sector_size: u32,
    /// The number of replication stripes.
    pub num_stripes: u16,
    /// The number of sub-stripes; only used for striped mirrors.
    pub sub_stripes: u16,
}

/// The chunk fixed part whose encoding starts at byte `off` of `s`.
pub open spec fn spec_chunk_at(s: Seq<u8>, off: int) -> Chunk
    recommends
        0 <= off,
        off + CHUNK_SIZE <= s.len(),
{
    Chunk {
        length: spec_u64_from_le_bytes(s.subrange(off, off + 8)),
        owner: spec_u64_from_le_bytes(s.subrange(off + 8, off + 16)),
        stripe_len: spec_u64_from_le_bytes(s.subrange(off + 16, off + 24)),
        chunk_type: spec_u64_from_le_bytes(s.subrange(off + 24, off + 32)),
        io_align: spec_u32_from_le_bytes(s.subrange(off + 32, off + 36)),
        io_width: spec_u32_from_le_bytes(s.subrange(off + 36, off + 40)),
        sector_size: spec_u32_from_le_bytes(s.subrange(off + 40, off + 44)),
        num_stripes: spec_u16_from_le_bytes(s.subrange(off + 44, off + 46)),
        sub_stripes: spec_u16_from_le_bytes(s.subrange(off + 46, off + 48)),
    }
}

/// The 48-byte encoding of the chunk fixed part `c`.
pub open spec fn spec_chunk_to_bytes(c: Chunk) -> Seq<u8> {
    spec_u64_to_le_bytes(c.length) + spec_u64_to_le_bytes(c.owner) + spec_u64_to_le_bytes(
        c.stripe_len,
    ) + spec_u64_to_le_bytes(c.chunk_type) + spec_u32_to_le_bytes(c.io_align)
        + spec_u32_to_le_bytes(c.io_width) + spec_u32_to_le_bytes(c.sector_size)
        + spec_u16_to_le_bytes(c.num_stripes) + spec_u16_to_le_bytes(c.sub_stripes)
}

impl Chunk {
    /// Decodes the chunk fixed part found at byte `offset` of an
    /// enclosing buffer.
    pub fn decode_at(bytes: &[u8], offset: usize) -> (r: Chunk)
        requires
            offset + CHUNK_SIZE <= bytes@.len(),
        ensures
            r == spec_chunk_at(bytes@, offset as int),
    {
        let _n: usize = bytes.len();
        Chunk {
            length: read_u64_at(bytes, offset),
            owner: read_u64_at(bytes, offset + 8),
            stripe_len: read_u64_at(bytes, offset + 16),
            chunk_type: read_u64_at(bytes, offset + 24),
            io_align: read_u32_at(bytes, offset + 32),
            io_width: read_u32_at(bytes, offset + 36),
            sector_size: read_u32_at(bytes, offset + 40),
            num_stripes: read_u16_at(bytes, offset + 44),
            sub_stripes: read_u16_at(bytes, offset + 46),
        }
    }

    /// Decodes a chunk fixed part from the front of `bytes`; trailing
    /// bytes (the stripe array included) are ignored here.
    pub fn from_bytes(bytes: &[u8]) -> (r: Result<Chunk, DecodeError>)
        ensures
            bytes@.len() >= CHUNK_SIZE ==> r == Ok::<Chunk, DecodeError>(spec_chunk_at(bytes@, 0)),
            bytes@.len() < CHUNK_SIZE ==> r == Err::<Chunk, DecodeError>(DecodeError::OutOfBounds),
    {
        if bytes.len() < CHUNK_SIZE {
            return Err(DecodeError::OutOfBounds);
        }
        Ok(Chunk::decode_at(bytes, 0))
    }

    /// Appends the 48-byte encoding of `self` to `out`.
    pub fn encode_into(&self, out: &mut Vec<u8>)
        ensures
            final(out)@ == old(out)@ + spec_chunk_to_bytes(*self),
    {
        put_u64(out, self.length);
        put_u64(out, self.owner);
        put_u64(out, self.stripe_len);
        put_u64(out, self.chunk_type);
        put_u32(out, self.io_align);
        put_u32(out, self.io_width);
        put_u32(out, self.sector_size);
        put_u16(out, self.num_stripes);
        put_u16(out, self.sub_stripes);
        proof {
            assert(out@ =~= old(out)@ + spec_chunk_to_bytes(*self));
        }
    }
}

/// Encoding a chunk fixed part and decoding the result returns the
/// original value.
pub proof fn lemma_chunk_round_trip(c: Chunk)
    ensures
        spec_chunk_to_bytes(c).len() == CHUNK_SIZE,
        spec_chunk_at(spec_chunk_to_bytes(c), 0) == c,
{
    lemma_auto_spec_u64_to_from_le_bytes();
    lemma_auto_spec_u32_to_from_le_bytes();
    lemma_auto_spec_u16_to_from_le_bytes();
    let s = spec_chunk_to_bytes(c);
    assert(s.subrange(0, 8) =~= spec_u64_to_le_bytes(c.length));
    assert(s.subrange(8, 16) =~= spec_u64_to_le_bytes(c.owner));
    assert(s.subrange(16, 24) =~= spec_u64_to_le_bytes(c.stripe_len));
    assert(s.subrange(24, 32) =~= spec_u64_to_le_bytes(c.chunk_type));
    assert(s.subrange(32, 36) =~= spec_u32_to_le_bytes(c.io_align));
    assert(s.subrange(36, 40) =~= spec_u32_to_le_bytes(c.io_width));
    assert(s.subrange(40, 44) =~= spec_u32_to_le_bytes(c.sector_size));
    assert(s.subrange(44, 46) =~= spec_u16_to_le_bytes(c.num_stripes));
    assert(s.subrange(46, 48) =~= spec_u16_to_le_bytes(c.sub_stripes));
}

/// The sequence of `count` stripe images encoded back to back starting at
/// byte `off` of `s`.
pub open spec fn spec_stripes_at(s: Seq<u8>, off: int, count: int) -> Seq<StripeView>
    recommends
        0 <= off,
        0 <= count,
        off + count * STRIPE_SIZE <= s.len(),
{
    Seq::new(count as nat, |i: int| spec_stripe_at(s, off + i * STRIPE_SIZE))
}

/// Decodes `count` consecutive stripes starting at byte `offset`.
pub fn decode_stripes(bytes: &[u8], offset: usize, count: usize) -> (r: Vec<Stripe>)
    requires
        offset + count * STRIPE_SIZE <= bytes@.len(),
    ensures
        r@.len() == count,
        forall|i: int|
            0 <= i < count ==> #[trigger] r@[i]@ == spec_stripe_at(
                bytes@,
                offset + i * STRIPE_SIZE,
            ),
{
    let _n: usize = bytes.len();
    let mut stripes: Vec<Stripe> = Vec::new();
    let mut i: usize = 0;
    while i < count
        invariant
            i <= count,
            offset + count * STRIPE_SIZE <= bytes@.len(),
            bytes@.len() <= usize::MAX,
            stripes@.len() == i,
            forall|j: int|
                0 <= j < i ==> #[trigger] stripes@[j]@ == spec_stripe_at(
                    bytes@,
                    offset + j * STRIPE_SIZE,
                ),
        decreases count - i,
    {
        proof {
            assert(i * STRIPE_SIZE + STRIPE_SIZE <= count * STRIPE_SIZE);
        }
        let st = Stripe::decode_at(bytes, offset + i * STRIPE_SIZE);
        stripes.push(st);
        i = i + 1;
    }
    stripes
}

/// A chunk fixed part together with its decoded stripe array.
#[derive(Clone, Debug, Hash, PartialEq, Eq)]
pub struct ChunkDynamic {
    /// The fixed mapping parameters.
    pub chunk: Chunk,
    /// The trailing stripes, in on-disk order.
    pub stripes: Vec<Stripe>,
}

impl ChunkDynamic {
    /// Decodes a chunk fixed part followed by exactly `count` stripes from
    /// the front of `bytes`. The count is supplied by the caller — read
    /// beforehand from the fixed part or from the enclosing item — and the
    /// computed total of `48 + count * 32` bytes must fit the buffer;
    /// otherwise decoding fails with [`DecodeError::TruncatedRecord`]
    /// rather than truncating the array. Trailing bytes are ignored.
    pub fn from_prefix(bytes: &[u8], count: usize) -> (r: Result<ChunkDynamic, DecodeError>)
        ensures
            spec_dynamic_total(CHUNK_SIZE as int, STRIPE_SIZE as int, count as int) <= bytes@.len()
                ==> (r matches Ok(c) && {
                &&& c.chunk == spec_chunk_at(bytes@, 0)
                &&& c.stripes@.len() == count
                &&& forall|i: int|
                    0 <= i < count ==> #[trigger] c.stripes@[i]@ == spec_stripe_at(
                        bytes@,
                        CHUNK_SIZE + i * STRIPE_SIZE,
                    )
            }),
            spec_dynamic_total(CHUNK_SIZE as int, STRIPE_SIZE as int, count as int) > bytes@.len()
                ==> r == Err::<ChunkDynamic, DecodeError>(DecodeError::TruncatedRecord),
    {
        let _total = dynamic_tail_bounds(bytes.len(), CHUNK_SIZE, STRIPE_SIZE, count)?;
        let chunk = Chunk::decode_at(bytes, 0);
        let stripes = decode_stripes(bytes, CHUNK_SIZE, count);
        Ok(ChunkDynamic { chunk, stripes })
    }
}

} // verus!

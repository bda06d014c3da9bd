//! Primitive codec: fixed-width little-endian integer and raw byte access
//! at arbitrary (unaligned) offsets of a borrowed byte buffer.
//!
//! All records of this format are packed, so every multi-byte field is read
//! byte by byte in little-endian order, never through an aligned load. Each
//! accessor exists in two forms: a checked form returning `Result`, whose
//! out-of-range case is [`DecodeError::OutOfBounds`], and an `_at` form with
//! a `requires` bound, for use after one length check has been made.

use vstd::bytes::*;
use vstd::prelude::*;
use vstd::slice::*;

use crate::error::DecodeError;

verus! {

/// The value of `x` reinterpreted as a signed 64-bit two's-complement value.
pub open spec fn spec_u64_to_i64(x: u64) -> i64 {
    if x <= i64::MAX {
        x as i64
    } else {
        (x - 0x1_0000_0000_0000_0000) as i64
    }
}

/// The signed 64-bit value held little-endian in the 8 bytes of `s`.
pub open spec fn spec_i64_from_le_bytes(s: Seq<u8>) -> i64
    recommends
        s.len() == 8,
{
    spec_u64_to_i64(spec_u64_from_le_bytes(s))
}

/// Reads the byte at `offset`.
pub fn read_u8_at(bytes: &[u8], offset: usize) -> (r: u8)
    requires
        offset < bytes@.len(),
    ensures
        r == bytes@[offset as int],
{
    *slice_index_get(bytes, offset)
}

/// Reads the little-endian `u16` at `offset`.
pub fn read_u16_at(bytes: &[u8], offset: usize) -> (r: u16)
    requires
        offset + 2 <= bytes@.len(),
    ensures
        r == spec_u16_from_le_bytes(bytes@.subrange(offset as int, offset + 2)),
{
    let _n: usize = bytes.len();
    u16_from_le_bytes(slice_subrange(bytes, offset, offset + 2))
}

/// Reads the little-endian `u32` at `offset`.
pub fn read_u32_at(bytes: &[u8], offset: usize) -> (r: u32)
    requires
        offset + 4 <= bytes@.len(),
    ensures
        r == spec_u32_from_le_bytes(bytes@.subrange(offset as int, offset + 4)),
{
    let _n: usize = bytes.len();
    u32_from_le_bytes(slice_subrange(bytes, offset, offset + 4))
}

/// Reads the little-endian `u64` at `offset`.
pub fn read_u64_at(bytes: &[u8], offset: usize) -> (r: u64)
    requires
        offset + 8 <= bytes@.len(),
    ensures
        r == spec_u64_from_le_bytes(bytes@.subrange(offset as int, offset + 8)),
{
    let _n: usize = bytes.len();
    u64_from_le_bytes(slice_subrange(bytes, offset, offset + 8))
}

/// Reads the little-endian `i64` (two's complement) at `offset`.
pub fn read_i64_at(bytes: &[u8], offset: usize) -> (r: i64)
    requires
        offset + 8 <= bytes@.len(),
    ensures
        r == spec_i64_from_le_bytes(bytes@.subrange(offset as int, offset + 8)),
{
    let x = read_u64_at(bytes, offset);
    if x <= 0x7fff_ffff_ffff_ffff {
        x as i64
    } else {
        let low = (x - 0x8000_0000_0000_0000) as i64;
        low + i64::MIN
    }
}

/// Copies the `len` bytes starting at `offset` out of the buffer.
pub fn read_bytes_at(bytes: &[u8], offset: usize, len: usize) -> (r: Vec<u8>)
    requires
        offset + len <= bytes@.len(),
    ensures
        r@ == bytes@.subrange(offset as int, offset + len),
{
    let _n: usize = bytes.len();
    slice_to_vec(slice_subrange(bytes, offset, offset + len))
}

/// True when a field of `width` bytes at `offset` lies inside the buffer.
fn field_in_bounds(bytes: &[u8], offset: usize, width: usize) -> (r: bool)
    ensures
        r == (offset + width <= bytes@.len()),
{
    bytes.len() >= width && offset <= bytes.len() - width
}

/// Reads the byte at `offset`, checking the bound.
pub fn read_u8(bytes: &[u8], offset: usize) -> (r: Result<u8, DecodeError>)
    ensures
        offset + 1 <= bytes@.len() ==> r == Ok::<u8, DecodeError>(bytes@[offset as int]),
        offset + 1 > bytes@.len() ==> r == Err::<u8, DecodeError>(DecodeError::OutOfBounds),
{
    if field_in_bounds(bytes, offset, 1) {
        Ok(read_u8_at(bytes, offset))
    } else {
        Err(DecodeError::OutOfBounds)
    }
}

/// Reads the little-endian `u16` at `offset`, checking the bound.
pub fn read_u16(bytes: &[u8], offset: usize) -> (r: Result<u16, DecodeError>)
    ensures
        offset + 2 <= bytes@.len() ==> r == Ok::<u16, DecodeError>(
            spec_u16_from_le_bytes(bytes@.subrange(offset as int, offset + 2)),
        ),
        offset + 2 > bytes@.len() ==> r == Err::<u16, DecodeError>(DecodeError::OutOfBounds),
{
    if field_in_bounds(bytes, offset, 2) {
        Ok(read_u16_at(bytes, offset))
    } else {
        Err(DecodeError::OutOfBounds)
    }
}

/// Reads the little-endian `u32` at `offset`, checking the bound.
pub fn read_u32(bytes: &[u8], offset: usize) -> (r: Result<u32, DecodeError>)
    ensures
        offset + 4 <= bytes@.len() ==> r == Ok::<u32, DecodeError>(
            spec_u32_from_le_bytes(bytes@.subrange(offset as int, offset + 4)),
        ),
        offset + 4 > bytes@.len() ==> r == Err::<u32, DecodeError>(DecodeError::OutOfBounds),
{
    if field_in_bounds(bytes, offset, 4) {
        Ok(read_u32_at(bytes, offset))
    } else {
        Err(DecodeError::OutOfBounds)
    }
}

/// Reads the little-endian `u64` at `offset`, checking the bound.
pub fn read_u64(bytes: &[u8], offset: usize) -> (r: Result<u64, DecodeError>)
    ensures
        offset + 8 <= bytes@.len() ==> r == Ok::<u64, DecodeError>(
            spec_u64_from_le_bytes(bytes@.subrange(offset as int, offset + 8)),
        ),
        offset + 8 > bytes@.len() ==> r == Err::<u64, DecodeError>(DecodeError::OutOfBounds),
{
    if field_in_bounds(bytes, offset, 8) {
        Ok(read_u64_at(bytes, offset))
    } else {
        Err(DecodeError::OutOfBounds)
    }
}

/// Reads the little-endian `i64` at `offset`, checking the bound.
pub fn read_i64(bytes: &[u8], offset: usize) -> (r: Result<i64, DecodeError>)
    ensures
        offset + 8 <= bytes@.len() ==> r == Ok::<i64, DecodeError>(
            spec_i64_from_le_bytes(bytes@.subrange(offset as int, offset + 8)),
        ),
        offset + 8 > bytes@.len() ==> r == Err::<i64, DecodeError>(DecodeError::OutOfBounds),
{
    if field_in_bounds(bytes, offset, 8) {
        Ok(read_i64_at(bytes, offset))
    } else {
        Err(DecodeError::OutOfBounds)
    }
}

/// Copies `len` bytes starting at `offset`, checking the bound.
pub fn read_bytes(bytes: &[u8], offset: usize, len: usize) -> (r: Result<Vec<u8>, DecodeError>)
    ensures
        offset + len <= bytes@.len() ==> (r matches Ok(v) && v@ == bytes@.subrange(
            offset as int,
            offset + len,
        )),
        offset + len > bytes@.len() ==> r == Err::<Vec<u8>, DecodeError>(DecodeError::OutOfBounds),
{
    if field_in_bounds(bytes, offset, len) {
        Ok(read_bytes_at(bytes, offset, len))
    } else {
        Err(DecodeError::OutOfBounds)
    }
}

/// Appends the byte `x` to `out`.
pub fn put_u8(out: &mut Vec<u8>, x: u8)
    ensures
        final(out)@ == old(out)@.push(x),
{
    out.push(x);
}

/// Appends the two little-endian bytes of `x` to `out`.
pub fn put_u16(out: &mut Vec<u8>, x: u16)
    ensures
        final(out)@ == old(out)@ + spec_u16_to_le_bytes(x),
{
    let mut le = u16_to_le_bytes(x);
    out.append(&mut le);
}

/// Appends the four little-endian bytes of `x` to `out`.
pub fn put_u32(out: &mut Vec<u8>, x: u32)
    ensures
        final(out)@ == old(out)@ + spec_u32_to_le_bytes(x),
{
    let mut le = u32_to_le_bytes(x);
    out.append(&mut le);
}

/// Appends the eight little-endian bytes of `x` to `out`.
pub fn put_u64(out: &mut Vec<u8>, x: u64)
    ensures
        final(out)@ == old(out)@ + spec_u64_to_le_bytes(x),
{
    let mut le = u64_to_le_bytes(x);
    out.append(&mut le);
}

/// Appends a copy of `src` to `out`.
pub fn put_bytes(out: &mut Vec<u8>, src: &[u8])
    ensures
        final(out)@ == old(out)@ + src@,
{
    let mut copy = slice_to_vec(src);
    out.append(&mut copy);
}

} // verus!

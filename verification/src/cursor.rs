//! Endian-aware reads of fixed-width integers from a byte buffer.

use vstd::prelude::*;
use crate::error::ExifError;

verus! {

/// Byte order of a TIFF structure, fixed once by the two-byte marker of its header.
#[derive(Clone, Copy, Debug, PartialEq, Eq, Structural)]
pub enum ByteOrder {
    /// Least significant byte first ("II").
    LittleEndian,
    /// Most significant byte first ("MM").
    BigEndian,
}

/// The 16-bit number that the two bytes at `offset` spell in the given order.
pub open spec fn u16_at(data: Seq<u8>, offset: int, order: ByteOrder) -> int
    recommends
        0 <= offset,
        offset + 2 <= data.len(),
{
    match order {
        ByteOrder::LittleEndian => data[offset] as int + 256 * (data[offset + 1] as int),
        ByteOrder::BigEndian => 256 * (data[offset] as int) + data[offset + 1] as int,
    }
}

/// The 32-bit number that the four bytes at `offset` spell in the given order.
pub open spec fn u32_at(data: Seq<u8>, offset: int, order: ByteOrder) -> int
    recommends
        0 <= offset,
        offset + 4 <= data.len(),
{
    match order {
        ByteOrder::LittleEndian => data[offset] as int + 256 * (data[offset + 1] as int) + 65536
            * (data[offset + 2] as int) + 16777216 * (data[offset + 3] as int),
        ByteOrder::BigEndian => 16777216 * (data[offset] as int) + 65536 * (data[offset
            + 1] as int) + 256 * (data[offset + 2] as int) + data[offset + 3] as int,
    }
}

/// The signed reading of a 32-bit pattern (two's complement).
pub open spec fn as_signed32(bits: int) -> int {
    if bits >= 0x8000_0000 {
        bits - 0x1_0000_0000
    } else {
        bits
    }
}

/// Whether `need` bytes starting `delta` bytes after `base` all lie inside a buffer of `len` bytes.
pub open spec fn span_fits(len: int, base: int, delta: int, need: int) -> bool {
    base + delta + need <= len
}

/// The position `base + delta`, if `need` bytes from there lie inside a buffer of `len` bytes.
pub fn locate(len: usize, base: usize, delta: u32, need: usize) -> (position: Option<usize>)
    ensures
        position is Some <==> span_fits(len as int, base as int, delta as int, need as int),
        position is Some ==> position->0 == base + delta,
{
    if base > len {
        return None;
    }
    let room: usize = len - base;
    let step: usize = delta as usize;
    if step > room {
        return None;
    }
    if need > room - step {
        return None;
    }
    Some(base + step)
}

/// Reads a 16-bit integer at `offset`.
///
/// Fails with [`ExifError::TruncatedBuffer`] exactly when the two bytes are not
/// all inside the buffer; it never indexes out of bounds.
pub fn read_u16(data: &[u8], offset: usize, order: ByteOrder) -> (value: Result<u16, ExifError>)
    ensures
        offset + 2 <= data@.len() ==> value is Ok && value->Ok_0 as int == u16_at(
            data@,
            offset as int,
            order,
        ),
        offset + 2 > data@.len() ==> value == Err::<u16, ExifError>(ExifError::TruncatedBuffer),
{
    if data.len() < 2 || offset > data.len() - 2 {
        return Err(ExifError::TruncatedBuffer);
    }
    let first: u16 = data[offset] as u16;
    let second: u16 = data[offset + 1] as u16;
    match order {
        ByteOrder::LittleEndian => Ok(first + 256 * second),
        ByteOrder::BigEndian => Ok(256 * first + second),
    }
}

/// Reads a 32-bit integer at `offset`.
///
/// Fails with [`ExifError::TruncatedBuffer`] exactly when the four bytes are not
/// all inside the buffer; it never indexes out of bounds.
pub fn read_u32(data: &[u8], offset: usize, order: ByteOrder) -> (value: Result<u32, ExifError>)
    ensures
        offset + 4 <= data@.len() ==> value is Ok && value->Ok_0 as int == u32_at(
            data@,
            offset as int,
            order,
        ),
        offset + 4 > data@.len() ==> value == Err::<u32, ExifError>(ExifError::TruncatedBuffer),
{
    if data.len() < 4 || offset > data.len() - 4 {
        return Err(ExifError::TruncatedBuffer);
    }
    let b0: u32 = data[offset] as u32;
    let b1: u32 = data[offset + 1] as u32;
    let b2: u32 = data[offset + 2] as u32;
    let b3: u32 = data[offset + 3] as u32;
    match order {
        ByteOrder::LittleEndian => Ok(b0 + 256 * b1 + 65536 * b2 + 16777216 * b3),
        ByteOrder::BigEndian => Ok(16777216 * b0 + 65536 * b1 + 256 * b2 + b3),
    }
}

/// Reads a 32-bit integer at `offset` as a signed number (two's complement).
pub fn read_i32(data: &[u8], offset: usize, order: ByteOrder) -> (value: Result<i32, ExifError>)
    ensures
        offset + 4 <= data@.len() ==> value is Ok && value->Ok_0 as int == as_signed32(
            u32_at(data@, offset as int, order),
        ),
        offset + 4 > data@.len() ==> value == Err::<i32, ExifError>(ExifError::TruncatedBuffer),
{
    match read_u32(data, offset, order) {
        Ok(bits) => {
            if bits >= 0x8000_0000u32 {
                let low: u32 = bits - 0x8000_0000u32;
                Ok((low as i32) - 0x4000_0000i32 - 0x4000_0000i32)
            } else {
                Ok(bits as i32)
            }
        },
        Err(e) => Err(e),
    }
}

} // verus!

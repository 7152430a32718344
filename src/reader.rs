use crate::parser::ParserError;
use vstd::prelude::*;

verus! {

/// The `n` bytes at `off` lie inside `b`.
pub open spec fn fits(b: Seq<u8>, off: int, n: int) -> bool {
    0 <= off && 0 <= n && off + n <= b.len()
}

/// The little-endian 16-bit integer at `off`.
pub open spec fn le16(b: Seq<u8>, off: int) -> int {
    b[off] as int + 256 * (b[off + 1] as int)
}

/// The little-endian 32-bit integer at `off`.
pub open spec fn le32(b: Seq<u8>, off: int) -> int {
    le16(b, off) + 65536 * le16(b, off + 2)
}

/// The little-endian 64-bit integer at `off`.
pub open spec fn le64(b: Seq<u8>, off: int) -> int {
    le32(b, off) + 4294967296 * le32(b, off + 4)
}

/// The error for a read of `n` bytes at `off` that leaves the buffer.
pub open spec fn out_of_bounds(b: Seq<u8>, off: int, n: int) -> ParserError {
    ParserError::OutOfBounds { offset: off as u64, length: n as u64, buffer_length: b.len() as u64 }
}

pub fn u16_at(b: &[u8], off: usize) -> (r: u16)
    requires
        fits(b@, off as int, 2),
    ensures
        r as int == le16(b@, off as int),
{
    let lo = b[off] as u16;
    let hi = b[off + 1] as u16;
    lo + hi * 256
}

pub fn u32_at(b: &[u8], off: usize) -> (r: u32)
    requires
        fits(b@, off as int, 4),
    ensures
        r as int == le32(b@, off as int),
{
    let _len = b.len();
    let lo = u16_at(b, off) as u32;
    let hi = u16_at(b, off + 2) as u32;
    lo + hi * 65536
}

pub fn u64_at(b: &[u8], off: usize) -> (r: u64)
    requires
        fits(b@, off as int, 8),
    ensures
        r as int == le64(b@, off as int),
{
    let _len = b.len();
    let lo = u32_at(b, off) as u64;
    let hi = u32_at(b, off + 4) as u64;
    lo + hi * 4294967296
}

/// Whether `n` bytes at `off` lie inside `b`, computed without overflow.
pub fn in_bounds(b: &[u8], off: usize, n: usize) -> (r: bool)
    ensures
        r == fits(b@, off as int, n as int),
        b@.len() <= usize::MAX,
{
    off <= b.len() && n <= b.len() - off
}

pub fn read_u16(b: &[u8], off: usize) -> (r: Result<u16, ParserError>)
    ensures
        fits(b@, off as int, 2) ==> (r matches Ok(v) && v as int == le16(b@, off as int)),
        !fits(b@, off as int, 2) ==> r == Err::<u16, ParserError>(out_of_bounds(b@, off as int, 2)),
{
    if in_bounds(b, off, 2) {
        Ok(u16_at(b, off))
    } else {
        Err(ParserError::OutOfBounds { offset: off as u64, length: 2, buffer_length: b.len() as u64 })
    }
}

pub fn read_u32(b: &[u8], off: usize) -> (r: Result<u32, ParserError>)
    ensures
        fits(b@, off as int, 4) ==> (r matches Ok(v) && v as int == le32(b@, off as int)),
        !fits(b@, off as int, 4) ==> r == Err::<u32, ParserError>(out_of_bounds(b@, off as int, 4)),
{
    if in_bounds(b, off, 4) {
        Ok(u32_at(b, off))
    } else {
        Err(ParserError::OutOfBounds { offset: off as u64, length: 4, buffer_length: b.len() as u64 })
    }
}

pub fn read_u64(b: &[u8], off: usize) -> (r: Result<u64, ParserError>)
    ensures
        fits(b@, off as int, 8) ==> (r matches Ok(v) && v as int == le64(b@, off as int)),
        !fits(b@, off as int, 8) ==> r == Err::<u64, ParserError>(out_of_bounds(b@, off as int, 8)),
{
    if in_bounds(b, off, 8) {
        Ok(u64_at(b, off))
    } else {
        Err(ParserError::OutOfBounds { offset: off as u64, length: 8, buffer_length: b.len() as u64 })
    }
}

/// A copy of the `len` bytes at `off`, known to lie inside `b`.
pub fn bytes_at(b: &[u8], off: usize, len: usize) -> (r: Vec<u8>)
    requires
        fits(b@, off as int, len as int),
    ensures
        r@ == b@.subrange(off as int, off + len),
{
    let mut v: Vec<u8> = Vec::new();
    let mut i: usize = 0;
    let _len = b.len();
    while i < len
        invariant
            fits(b@, off as int, len as int),
            b@.len() <= usize::MAX,
            i <= len,
            v@ == b@.subrange(off as int, off + i),
        decreases len - i,
    {
        v.push(b[off + i]);
        i = i + 1;
        assert(v@ =~= b@.subrange(off as int, off + i));
    }
    v
}

/// A copy of the `len` bytes at `off`.
pub fn read_bytes(b: &[u8], off: usize, len: usize) -> (r: Result<Vec<u8>, ParserError>)
    ensures
        fits(b@, off as int, len as int) ==> (r matches Ok(v) && v@ == b@.subrange(
            off as int,
            off + len,
        )),
        !fits(b@, off as int, len as int) ==> r == Err::<Vec<u8>, ParserError>(
            out_of_bounds(b@, off as int, len as int),
        ),
{
    if !in_bounds(b, off, len) {
        return Err(
            ParserError::OutOfBounds { offset: off as u64, length: len as u64, buffer_length: b.len() as u64 },
        );
    }
    Ok(bytes_at(b, off, len))
}

} // verus!

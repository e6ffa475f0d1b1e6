//! Byte order of the image, and endianness-aware integer reads.

use vstd::prelude::*;

verus! {

/// Byte order that a loaded image declares for itself.
#[derive(Clone, Copy, PartialEq, Eq, Structural, Debug)]
pub enum Endianness {
    LittleEndian,
    BigEndian,
}

/// Byte order carried by a section reader, chosen at run time.
#[derive(Clone, Copy, PartialEq, Eq, Structural, Debug)]
pub enum RunTimeEndian {
    Little,
    Big,
}

/// The 32-bit value encoded at `off` in `b`, read per `e`.
pub open spec fn spec_u32_at(b: Seq<u8>, off: int, e: RunTimeEndian) -> u32
    recommends
        0 <= off,
        off + 4 <= b.len(),
{
    match e {
        RunTimeEndian::Little => (b[off] + b[off + 1] * 0x100 + b[off + 2] * 0x10000 + b[off + 3]
            * 0x1000000) as u32,
        RunTimeEndian::Big => (b[off + 3] + b[off + 2] * 0x100 + b[off + 1] * 0x10000 + b[off]
            * 0x1000000) as u32,
    }
}

/// The 64-bit value encoded at `off` in `b`, read per `e`.
pub open spec fn spec_u64_at(b: Seq<u8>, off: int, e: RunTimeEndian) -> u64
    recommends
        0 <= off,
        off + 8 <= b.len(),
{
    match e {
        RunTimeEndian::Little => (b[off] + b[off + 1] * 0x100 + b[off + 2] * 0x10000 + b[off + 3]
            * 0x1000000 + b[off + 4] * 0x100000000 + b[off + 5] * 0x10000000000 + b[off + 6]
            * 0x1000000000000 + b[off + 7] * 0x100000000000000) as u64,
        RunTimeEndian::Big => (b[off + 7] + b[off + 6] * 0x100 + b[off + 5] * 0x10000 + b[off + 4]
            * 0x1000000 + b[off + 3] * 0x100000000 + b[off + 2] * 0x10000000000 + b[off + 1]
            * 0x1000000000000 + b[off] * 0x100000000000000) as u64,
    }
}

/// Reads the 32-bit value at `off` in `b` per `e`.
pub fn read_u32_at(b: &Vec<u8>, off: usize, e: RunTimeEndian) -> (r: u32)
    requires
        off + 4 <= b@.len(),
    ensures
        r == spec_u32_at(b@, off as int, e),
{
    let _n: usize = b.len();  // the buffer length fits in usize, so the index sums below cannot overflow
    let (b0, b1, b2, b3) = (b[off] as u32, b[off + 1] as u32, b[off + 2] as u32, b[off + 3] as u32);
    match e {
        RunTimeEndian::Little => b0 + b1 * 0x100 + b2 * 0x10000 + b3 * 0x1000000,
        RunTimeEndian::Big => b3 + b2 * 0x100 + b1 * 0x10000 + b0 * 0x1000000,
    }
}

/// Reads the 64-bit value at `off` in `b` per `e`.
pub fn read_u64_at(b: &Vec<u8>, off: usize, e: RunTimeEndian) -> (r: u64)
    requires
        off + 8 <= b@.len(),
    ensures
        r == spec_u64_at(b@, off as int, e),
{
    let _n: usize = b.len();  // the buffer length fits in usize, so the index sums below cannot overflow
    let (b0, b1, b2, b3) = (b[off] as u64, b[off + 1] as u64, b[off + 2] as u64, b[off + 3] as u64);
    let (b4, b5, b6, b7) = (
        b[off + 4] as u64,
        b[off + 5] as u64,
        b[off + 6] as u64,
        b[off + 7] as u64,
    );
    match e {
        RunTimeEndian::Little => b0 + b1 * 0x100 + b2 * 0x10000 + b3 * 0x1000000 + b4 * 0x100000000
            + b5 * 0x10000000000 + b6 * 0x1000000000000 + b7 * 0x100000000000000,
        RunTimeEndian::Big => b7 + b6 * 0x100 + b5 * 0x10000 + b4 * 0x1000000 + b3 * 0x100000000
            + b2 * 0x10000000000 + b1 * 0x1000000000000 + b0 * 0x100000000000000,
    }
}

} // verus!

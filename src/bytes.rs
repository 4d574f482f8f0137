use vstd::prelude::*;

verus! {

/// A copy of `data[start..end]`.
pub fn copy_range(data: &[u8], start: usize, end: usize) -> (r: Vec<u8>)
    requires
        start <= end <= data@.len(),
    ensures
        r@ == data@.subrange(start as int, end as int),
{
    let mut r: Vec<u8> = Vec::new();
    let mut i: usize = start;
    while i < end
        invariant
            start <= i <= end <= data@.len(),
            r@ == data@.subrange(start as int, i as int),
        decreases end - i,
    {
        r.push(data[i]);
        i = i + 1;
        proof {
            assert(r@ =~= data@.subrange(start as int, i as int));
        }
    }
    r
}

/// The little-endian unsigned integer held by `data[i..i + 8]`.
pub open spec fn le_u64_at(data: Seq<u8>, i: int) -> int {
    data[i] as int + 0x100 * (data[i + 1] as int) + 0x1_0000 * (data[i + 2] as int) + 0x100_0000 * (
    data[i + 3] as int) + 0x1_0000_0000 * (data[i + 4] as int) + 0x100_0000_0000 * (
    data[i + 5] as int) + 0x1_0000_0000_0000 * (data[i + 6] as int) + 0x100_0000_0000_0000 * (
    data[i + 7] as int)
}

/// The little-endian unsigned integer held by `data[i..i + 4]`.
pub open spec fn le_u32_at(data: Seq<u8>, i: int) -> int {
    data[i] as int + 0x100 * (data[i + 1] as int) + 0x1_0000 * (data[i + 2] as int) + 0x100_0000 * (
    data[i + 3] as int)
}

/// The two's-complement reading of an unsigned 64-bit value.
pub open spec fn as_signed_64(v: int) -> int {
    if v < 0x8000_0000_0000_0000 {
        v
    } else {
        v - 0x1_0000_0000_0000_0000
    }
}

/// Reads a little-endian `u64` at `i`.
pub fn read_u64_le(data: &[u8], i: usize) -> (r: u64)
    requires
        i + 8 <= data@.len(),
    ensures
        r as int == le_u64_at(data@, i as int),
{
    data[i] as u64 + 0x100 * (data[i + 1] as u64) + 0x1_0000 * (data[i + 2] as u64) + 0x100_0000 * (
    data[i + 3] as u64) + 0x1_0000_0000 * (data[i + 4] as u64) + 0x100_0000_0000 * (
    data[i + 5] as u64) + 0x1_0000_0000_0000 * (data[i + 6] as u64) + 0x100_0000_0000_0000 * (
    data[i + 7] as u64)
}

/// Reads a little-endian `u32` at `i`.
pub fn read_u32_le(data: &[u8], i: usize) -> (r: u32)
    requires
        i + 4 <= data@.len(),
    ensures
        r as int == le_u32_at(data@, i as int),
{
    data[i] as u32 + 0x100 * (data[i + 1] as u32) + 0x1_0000 * (data[i + 2] as u32) + 0x100_0000 * (
    data[i + 3] as u32)
}

/// Reads a little-endian two's-complement `i64` at `i`.
pub fn read_i64_le(data: &[u8], i: usize) -> (r: i64)
    requires
        i + 8 <= data@.len(),
    ensures
        r as int == as_signed_64(le_u64_at(data@, i as int)),
{
    let v = read_u64_le(data, i);
    if v < 0x8000_0000_0000_0000 {
        v as i64
    } else {
        ((v - 0x8000_0000_0000_0000) as i64) - 0x7FFF_FFFF_FFFF_FFFF - 1
    }
}

} // verus!

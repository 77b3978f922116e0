//! Reading an unsigned number's low 32 bits as a signed one, which is what
//! handing a size or a count to a C interface amounts to.

use vstd::prelude::*;

verus! {

/// The `i32` that has the same 32 bits as `v`.
pub open spec fn same_bits_i32(v: u32) -> int {
    if v <= i32::MAX {
        v as int
    } else {
        v - 0x1_0000_0000
    }
}

/// The `i32` that has the low 32 bits of `n`.
pub open spec fn low_bits_i32(n: usize) -> int {
    same_bits_i32((n as int % 0x1_0000_0000) as u32)
}

/// Reads the 32 bits of `v` as a signed number: values from `0x8000_0000` on
/// come out negative.
pub fn u32_as_i32(v: u32) -> (r: i32)
    ensures
        r == same_bits_i32(v),
{
    if v <= 0x7FFF_FFFF {
        v as i32
    } else {
        let low: u32 = v - 0x8000_0000;
        (low as i32) + i32::MIN
    }
}

/// Reads the low 32 bits of `n` as a signed number.
pub fn usize_as_i32(n: usize) -> (r: i32)
    ensures
        r == low_bits_i32(n),
        n <= i32::MAX ==> r == n,
{
    let low: u64 = (n as u64) % 0x1_0000_0000;
    u32_as_i32(low as u32)
}

} // verus!

use vstd::prelude::*;

verus! {

/// A number of the ledger as a signed 64-bit column: itself where it fits,
/// else 0.
pub open spec fn narrowed_i64(x: int) -> i64 {
    if x <= i64::MAX {
        x as i64
    } else {
        0
    }
}

/// A number of the ledger as a signed 32-bit column: itself where it fits,
/// else 0.
pub open spec fn narrowed_i32(x: int) -> i32 {
    if x <= i32::MAX {
        x as i32
    } else {
        0
    }
}

/// A 64-bit number of the ledger as a signed 64-bit column.
pub fn u64_to_i64(x: u64) -> (r: i64)
    ensures
        r == narrowed_i64(x as int),
        r >= 0,
{
    if x <= 0x7fff_ffff_ffff_ffff {
        x as i64
    } else {
        0
    }
}

/// A count as a signed 64-bit column.
pub fn usize_to_i64(x: usize) -> (r: i64)
    ensures
        r == narrowed_i64(x as int),
        r >= 0,
{
    u64_to_i64(x as u64)
}

/// A 32-bit number of the ledger as a signed 32-bit column.
pub fn u32_to_i32(x: u32) -> (r: i32)
    ensures
        r == narrowed_i32(x as int),
        r >= 0,
{
    if x <= 0x7fff_ffff {
        x as i32
    } else {
        0
    }
}

/// A place in a list as a signed 32-bit column.
pub fn usize_to_i32(x: usize) -> (r: i32)
    ensures
        r == narrowed_i32(x as int),
        r >= 0,
{
    if x <= 0x7fff_ffff {
        x as i32
    } else {
        0
    }
}

} // verus!

//! Sizes as the tools write them, in bytes.

use vstd::prelude::*;

verus! {

/// Bytes in a kilobyte.
pub const KIB: u64 = 1_024;

/// Bytes in a megabyte.
pub const MIB: u64 = 1_048_576;

/// Bytes in a gigabyte.
pub const GIB: u64 = 1_073_741_824;

/// `count` units of `unit` bytes each, or zero where that many bytes cannot
/// be counted in 64 bits.
pub open spec fn scaled(count: u64, unit: u64) -> u64 {
    if count * unit <= u64::MAX {
        (count * unit) as u64
    } else {
        0
    }
}

/// `count` units of `unit` bytes each, in bytes.
pub fn scale(count: u64, unit: u64) -> (bytes: u64)
    ensures
        bytes == scaled(count, unit),
{
    match count.checked_mul(unit) {
        Some(bytes) => bytes,
        None => 0,
    }
}

} // verus!

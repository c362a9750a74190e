//! Clamping conversions used when turning consolidated records into
//! datastore rows, whose integer columns are signed.

use vstd::prelude::*;

verus! {

/// The value of `v` clamped into the range of `i64`.
pub open spec fn clamped_i64(v: u64) -> i64 {
    if v > i64::MAX as u64 {
        i64::MAX
    } else {
        v as i64
    }
}

/// The value of `v` clamped into the range of `i32`.
pub open spec fn clamped_i32(v: u64) -> i32 {
    if v > i32::MAX as u64 {
        i32::MAX
    } else {
        v as i32
    }
}

/// Converts an unsigned count or balance into a signed column value,
/// saturating at the top of the signed range.
pub fn into_clamped_i64(v: u64) -> (r: i64)
    ensures
        r == clamped_i64(v),
{
    if v > i64::MAX as u64 {
        i64::MAX
    } else {
        v as i64
    }
}

/// Converts an unsigned count into a signed 32-bit column value,
/// saturating at the top of the signed range.
pub fn into_clamped_i32(v: u64) -> (r: i32)
    ensures
        r == clamped_i32(v),
{
    if v > i32::MAX as u64 {
        i32::MAX
    } else {
        v as i32
    }
}

} // verus!

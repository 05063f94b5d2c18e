//! Axis quantization support: the wire format carries pointer and scroll
//! deltas as one signed byte, so a rounded native delta must be saturated
//! into that range rather than wrapped.

use vstd::prelude::*;

verus! {

/// Where a rounded axis delta must land: clamped into the signed range of
/// one wire byte, `[-128, 127]`.
pub open spec fn spec_saturate_to_i8(v: int) -> int {
    if v < -128 {
        -128
    } else if v > 127 {
        127
    } else {
        v
    }
}

/// Saturates an already-rounded axis delta into the signed 8-bit wire range.
///
/// The caller rounds the native floating-point delta to the nearest integer
/// (ties away from zero) before handing it in; this function supplies the
/// saturation half of the quantizer.
pub fn saturate_to_i8(v: i64) -> (r: i8)
    ensures
        r as int == spec_saturate_to_i8(v as int),
{
    if v < -128 {
        -128
    } else if v > 127 {
        127
    } else {
        v as i8
    }
}

} // verus!

//! IEEE-754 single-precision values held by their bit pattern.
//!
//! Profiles carry `f32` settings that this crate only stores and compares;
//! it keeps each one as the `u32` that `f32::to_bits` gives and orders two of
//! them as the `f32` values they encode.
use vstd::prelude::*;

verus! {

/// An `f32` held as its IEEE-754 bit pattern.
#[derive(Clone, Copy, Debug, PartialEq, Eq, Structural)]
pub struct F32Bits(pub u32);

/// The bit pattern without its sign.
pub open spec fn magnitude(bits: u32) -> int {
    if bits >= 0x8000_0000 {
        bits - 0x8000_0000
    } else {
        bits as int
    }
}

/// Whether the pattern encodes a NaN: all exponent bits set, fraction non-zero.
pub open spec fn is_nan(bits: u32) -> bool {
    magnitude(bits) > 0x7f80_0000
}

/// An integer that orders non-NaN patterns as the `f32` values they encode:
/// positive values by magnitude, negative values below them, and the two
/// zeros equal.
pub open spec fn order_key(bits: u32) -> int {
    if bits >= 0x8000_0000 {
        -magnitude(bits)
    } else {
        magnitude(bits)
    }
}

/// `a > b` on the encoded `f32` values; false when either is NaN.
pub open spec fn f32_gt(a: u32, b: u32) -> bool {
    !is_nan(a) && !is_nan(b) && order_key(a) > order_key(b)
}

/// `a < b` on the encoded `f32` values; false when either is NaN.
pub open spec fn f32_lt(a: u32, b: u32) -> bool {
    f32_gt(b, a)
}

/// Whether the pattern encodes a finite value: not an infinity, not a NaN.
pub open spec fn is_finite(bits: u32) -> bool {
    magnitude(bits) < 0x7f80_0000
}

/// `f32::clamp`: `lo` below it, `hi` above it, the value itself otherwise,
/// NaN included.
pub open spec fn f32_clamp(v: u32, lo: u32, hi: u32) -> u32 {
    if f32_lt(v, lo) {
        lo
    } else if f32_gt(v, hi) {
        hi
    } else {
        v
    }
}

/// The bounds `f32::clamp` accepts without panicking: neither is NaN and
/// `lo <= hi`.
pub open spec fn clamp_bounds_ok(lo: u32, hi: u32) -> bool {
    !is_nan(lo) && !is_nan(hi) && !f32_gt(lo, hi)
}

impl F32Bits {
    /// `self > other` on the encoded values, as `f32`'s `>` gives it.
    pub fn gt(self, other: F32Bits) -> (r: bool)
        ensures
            r == f32_gt(self.0, other.0),
    {
        let a_neg = self.0 >= 0x8000_0000;
        let b_neg = other.0 >= 0x8000_0000;
        let a_mag: u32 = if a_neg { self.0 - 0x8000_0000 } else { self.0 };
        let b_mag: u32 = if b_neg { other.0 - 0x8000_0000 } else { other.0 };
        if a_mag > 0x7f80_0000 || b_mag > 0x7f80_0000 {
            return false;
        }
        if !a_neg && !b_neg {
            a_mag > b_mag
        } else if !a_neg && b_neg {
            a_mag > 0 || b_mag > 0
        } else if a_neg && !b_neg {
            false
        } else {
            a_mag < b_mag
        }
    }

    /// Whether the encoded value is finite, as `f32::is_finite` gives it.
    pub fn is_finite(self) -> (r: bool)
        ensures
            r == is_finite(self.0),
    {
        let mag: u32 = if self.0 >= 0x8000_0000 { self.0 - 0x8000_0000 } else { self.0 };
        mag < 0x7f80_0000
    }

    /// The encoded value clamped to `lo..=hi`, as `f32::clamp` gives it.
    pub fn clamp(self, lo: F32Bits, hi: F32Bits) -> (r: F32Bits)
        requires
            clamp_bounds_ok(lo.0, hi.0),
        ensures
            r.0 == f32_clamp(self.0, lo.0, hi.0),
    {
        if lo.gt(self) {
            lo
        } else if self.gt(hi) {
            hi
        } else {
            self
        }
    }
}

} // verus!

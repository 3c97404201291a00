//! Single-precision numbers, carried by their bit patterns.
//!
//! Nothing in this crate computes with the sampling parameters and the log
//! probabilities that pass through it: they are only stored, copied and
//! replaced by defaults. Holding the IEEE 754 bits keeps each of them exact.

use vstd::prelude::*;

verus! {

/// An IEEE 754 single-precision number, by its bits.
#[derive(Clone, Copy, Debug, PartialEq, Eq, Structural)]
pub struct F32 {
    pub bits: u32,
}

/// The bits of `1.0`.
pub const ONE_BITS: u32 = 0x3f80_0000;

impl F32 {
    /// The number `0.0`.
    pub fn zero() -> (r: F32)
        ensures
            r.bits == 0,
    {
        F32 { bits: 0 }
    }

    /// The number `1.0`.
    pub fn one() -> (r: F32)
        ensures
            r.bits == ONE_BITS,
    {
        F32 { bits: ONE_BITS }
    }

    /// The value, or `1.0` where there is none.
    pub open spec fn or_one(v: Option<F32>) -> F32 {
        match v {
            Some(x) => x,
            None => F32 { bits: ONE_BITS },
        }
    }

    /// The value, or `0.0` where there is none.
    pub open spec fn or_zero(v: Option<F32>) -> F32 {
        match v {
            Some(x) => x,
            None => F32 { bits: 0 },
        }
    }
}

} // verus!

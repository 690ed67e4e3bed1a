//! Shared mathematical constants, each held as the bit pattern of its IEEE 754
//! binary64 value (`f64::from_bits` turns one into the number).
use vstd::prelude::*;

verus! {

/// ln(2π)
pub const LN_2PI_BITS: u64 = 0x3ffd67f1c864beb4u64;

/// ln(2πe)
pub const LN_2PI_E_BITS: u64 = 0x4006b3f8e4325f5au64;

/// √(2π)
pub const SQRT_2PI_BITS: u64 = 0x40040d931ff62705u64;

/// ln(π)
pub const LN_PI_BITS: u64 = 0x3ff250d048e7a1bdu64;

/// ln(2√(e/π))
pub const LN_2_SQRT_E_OVER_PI_BITS: u64 = 0x3fe3dd72b6129832u64;

/// Euler–Mascheroni constant (γ)
pub const EULER_MASCHERONI_BITS: u64 = 0x3fe2788cfc6fb619u64;

/// π²/6 = ζ(2)
pub const PI_SQUARED_OVER_6_BITS: u64 = 0x3ffa51a6625307d3u64;

} // verus!

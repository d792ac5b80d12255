//! Model of IEEE-754 double-precision samples by their bit patterns.
//!
//! A sensor sample travels through this crate as the `u64` bit pattern of a
//! double. A pattern is finite exactly when its exponent field is not all
//! ones; `float_key` maps a finite pattern to an integer whose order agrees
//! with the ordering of the doubles the patterns denote (finite doubles
//! compare by sign and magnitude, and the two zero patterns share the key 0).

use vstd::prelude::*;

verus! {

/// The bit pattern of the double `0.0`.
pub const ZERO_BITS: u64 = 0;

/// A pattern denotes a finite double exactly when its exponent field
/// (bits 52 to 62) is not all ones.
pub open spec fn is_finite_bits(b: u64) -> bool {
    (b >> 52) & 0x7ff != 0x7ff
}

/// Runtime check of `is_finite_bits`.
pub fn finite_bits(b: u64) -> (r: bool)
    ensures
        r == is_finite_bits(b),
{
    (b >> 52) & 0x7ff != 0x7ff
}

/// Sign bit of a pattern.
pub open spec fn sign_bit(b: u64) -> u64 {
    b >> 63
}

/// Magnitude of a pattern: everything below the sign bit.
pub open spec fn magnitude(b: u64) -> u64 {
    b & 0x7fff_ffff_ffff_ffff
}

/// Order key of a finite pattern: negative patterns sort below positive
/// ones by descending magnitude, and both zero patterns map to 0.
pub open spec fn float_key(b: u64) -> int {
    if sign_bit(b) == 1 {
        -(magnitude(b) as int)
    } else {
        magnitude(b) as int
    }
}

/// Strict order test on the keys of two patterns.
pub fn key_lt(a: u64, b: u64) -> (r: bool)
    ensures
        r == (float_key(a) < float_key(b)),
{
    proof {
        assert(a >> 63 == 0 || a >> 63 == 1) by (bit_vector);
        assert(b >> 63 == 0 || b >> 63 == 1) by (bit_vector);
    }
    let sa: u64 = a >> 63;
    let sb: u64 = b >> 63;
    let ma: u64 = a & 0x7fff_ffff_ffff_ffff;
    let mb: u64 = b & 0x7fff_ffff_ffff_ffff;
    if sa == 1 && sb == 1 {
        mb < ma
    } else if sa == 1 && sb == 0 {
        ma != 0 || mb != 0
    } else if sa == 0 && sb == 1 {
        false
    } else {
        ma < mb
    }
}

/// Strict order test, reversed.
pub fn key_gt(a: u64, b: u64) -> (r: bool)
    ensures
        r == (float_key(a) > float_key(b)),
{
    key_lt(b, a)
}

/// The sanitized form of a pattern: non-finite patterns become `0.0`,
/// finite patterns are kept.
pub open spec fn spec_sanitize_bits(b: u64) -> u64 {
    if is_finite_bits(b) {
        b
    } else {
        ZERO_BITS
    }
}

/// Replace a non-finite pattern with the pattern of `0.0`; keep a finite
/// pattern unchanged. The result is always finite.
pub fn sanitize_bits(b: u64) -> (r: u64)
    ensures
        r == spec_sanitize_bits(b),
        is_finite_bits(r),
        is_finite_bits(b) ==> r == b,
        !is_finite_bits(b) ==> r == ZERO_BITS,
{
    proof {
        assert((0u64 >> 52) & 0x7ff != 0x7ff) by (bit_vector);
    }
    if finite_bits(b) {
        b
    } else {
        ZERO_BITS
    }
}

} // verus!

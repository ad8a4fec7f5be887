//! Fixed-point cross-rate arithmetic.
//!
//! Every stored rate is an unsigned 128-bit value scaled by `1e9`: a rate `r`
//! stands for `r / 1e9` units of the reference asset.  A cross-rate between a
//! base and a quote rate is `base * 1e9 * 1e9 / quote`, computed in unsigned
//! 128-bit arithmetic with truncating division.  The two extra `1e9` factors
//! are applied before the division, so the intermediate product needs
//! `base * 1e18` to fit in 128 bits; [`MAX_SAFE_RATE`] is the largest base
//! rate for which it does, and the executable path proves freedom from
//! overflow below that bound.

use vstd::prelude::*;

verus! {

/// The fixed-point scale factor: rates carry nine decimal places.
pub const E9: u128 = 1_000_000_000;

/// The largest base rate whose intermediate product `rate * 1e18` still fits
/// in 128 bits: the floor of `u128::MAX / 1e18`.
pub const MAX_SAFE_RATE: u128 = 340_282_366_920_938_463_463;

/// The cross-rate of a base rate over a quote rate, both `1e9`-scaled:
/// `br * 1e9 * 1e9 / qr`, truncated toward zero.  The result is what the
/// reference store reports for a pair; callers keep `br` within
/// [`MAX_SAFE_RATE`] so the value is exact.
pub open spec fn spec_cross_rate(br: u128, qr: u128) -> u128
    recommends
        qr > 0,
{
    ((br * E9 * E9) / (qr as int)) as u128
}

/// Bounds for the intermediate products of the cross-rate computation: below
/// [`MAX_SAFE_RATE`] neither `br * 1e9` nor `br * 1e18` leaves `u128`.
pub proof fn lemma_cross_rate_intermediates_fit(br: u128)
    requires
        br <= MAX_SAFE_RATE,
    ensures
        br * E9 <= u128::MAX,
        br * E9 * E9 <= u128::MAX,
{
    vstd::arithmetic::mul::lemma_mul_inequality(br as int, MAX_SAFE_RATE as int, E9 as int);
    vstd::arithmetic::mul::lemma_mul_inequality(br * E9, MAX_SAFE_RATE * E9, E9 as int);
    assert(MAX_SAFE_RATE * E9 <= u128::MAX);
    assert(MAX_SAFE_RATE * E9 * E9 <= u128::MAX);
}

/// Within the safe bound the truncated spec value coincides with the exact
/// mathematical quotient `br * 1e18 / qr`; in particular no overflow hides in
/// the cast.
pub proof fn lemma_cross_rate_exact(br: u128, qr: u128)
    requires
        br <= MAX_SAFE_RATE,
        qr > 0,
    ensures
        spec_cross_rate(br, qr) == br * E9 * E9 / (qr as int),
{
    lemma_cross_rate_intermediates_fit(br);
    vstd::arithmetic::div_mod::lemma_div_nonincreasing(br * E9 * E9, qr as int);
    vstd::arithmetic::div_mod::lemma_div_pos_is_pos(br * E9 * E9, qr as int);
}

/// Computes the `1e9`-scaled cross-rate `br * 1e9 * 1e9 / qr` exactly, with
/// the whole product held in 128 bits before the truncating division.
pub fn cross_rate(br: u128, qr: u128) -> (r: u128)
    requires
        br <= MAX_SAFE_RATE,
        qr > 0,
    ensures
        r == spec_cross_rate(br, qr),
        r == br * E9 * E9 / (qr as int),
{
    proof {
        lemma_cross_rate_intermediates_fit(br);
        lemma_cross_rate_exact(br, qr);
    }
    br * E9 * E9 / qr
}

} // verus!

//! Shares, saturation and ranges of machine integers.
use vstd::prelude::*;

use crate::constants::BPS_DENOM;

verus! {

/// Whether `x` is a value of `i64`.
pub open spec fn fits_i64(x: int) -> bool {
    i64::MIN <= x <= i64::MAX
}

/// The low 64 bits of `x`.
pub open spec fn low_u64(x: int) -> u64 {
    (x % 0x1_0000_0000_0000_0000) as u64
}

/// `a + b`, or the largest `u64` where that is larger.
pub open spec fn add_capped(a: u64, b: u64) -> u64 {
    if a + b > u64::MAX {
        u64::MAX
    } else {
        (a + b) as u64
    }
}

/// `a - b`, or zero where that is negative.
pub open spec fn monus(a: int, b: int) -> int {
    if a < b {
        0
    } else {
        a - b
    }
}

/// `bps` basis points of `amount`, rounded down; a share beyond `u64` keeps
/// its low 64 bits.
pub open spec fn bps_share(amount: u64, bps: u16) -> u64 {
    low_u64(amount * bps / 10_000)
}

/// The low 64 bits of `x`.
pub fn truncate_u64(x: u128) -> (low: u64)
    ensures
        low == low_u64(x as int),
{
    assert(x as u64 == x % 0x1_0000_0000_0000_0000u128) by (bit_vector);
    #[verifier::truncate]
    (x as u64)
}

/// `bps` basis points of `amount`, rounded down.
pub fn share_of(amount: u64, bps: u16) -> (share: u64)
    ensures
        share == bps_share(amount, bps),
{
    assert(amount * bps <= 0xffff_ffff_ffff_ffff * 0xffff) by (nonlinear_arith)
        requires
            0 <= amount <= 0xffff_ffff_ffff_ffff,
            0 <= bps <= 0xffff,
    ;
    truncate_u64(amount as u128 * bps as u128 / BPS_DENOM as u128)
}

/// A share of at most the whole is the exact quotient, and no more than the
/// amount.
pub proof fn lemma_bps_share_exact(amount: u64, bps: u16)
    requires
        bps <= 10_000,
    ensures
        bps_share(amount, bps) == amount * bps / 10_000,
        bps_share(amount, bps) <= amount,
{
    assert(amount * bps <= amount * 10_000) by (nonlinear_arith)
        requires
            0 <= amount,
            0 <= bps <= 10_000,
    ;
}

/// Two shares that together are at most the whole together take no more than
/// the amount.
pub proof fn lemma_bps_shares_sum(amount: u64, a: u16, b: u16)
    requires
        a + b <= 10_000,
    ensures
        bps_share(amount, a) + bps_share(amount, b) <= amount,
{
    lemma_bps_share_exact(amount, a);
    lemma_bps_share_exact(amount, b);
    assert(amount * a + amount * b <= amount * 10_000) by (nonlinear_arith)
        requires
            0 <= amount,
            0 <= a,
            0 <= b,
            a + b <= 10_000,
    ;
}

} // verus!

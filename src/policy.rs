//! Fee and expiry policies: pure functions on plain integers.

use vstd::prelude::*;

verus! {

/// Platform fee in basis points (2%).
pub const PLATFORM_FEE_BPS: u64 = 200;

/// Basis points in a whole.
pub const BPS_DENOMINATOR: u64 = 10000;

/// Default time after creation at which an escrow may be refunded by anyone.
pub const ESCROW_TIMEOUT_SECONDS: i64 = 30 * 24 * 60 * 60;

/// Shorter timeout of the claim-time-binding deployment.
pub const FIFTEEN_DAYS: i64 = 15 * 24 * 60 * 60;

/// The fee owed on `amount` at `fee_bps`: `floor(amount * fee_bps / 10000)`.
pub open spec fn fee_of(amount: int, fee_bps: int) -> int {
    amount * fee_bps / 10000
}

/// Whether a deadline has passed at time `now`.
pub open spec fn expired(expires_at: int, now: int) -> bool {
    now >= expires_at
}

/// The platform fee on `amount`, computed in 128 bits so that no product overflows.
pub fn platform_fee(amount: u64, fee_bps: u64) -> (fee: u64)
    requires
        fee_bps <= BPS_DENOMINATOR,
    ensures
        fee == fee_of(amount as int, fee_bps as int),
        fee <= amount,
{
    proof {
        assert(amount as int * fee_bps as int <= 0xffff_ffff_ffff_ffff * 10000) by (nonlinear_arith)
            requires fee_bps <= 10000, amount <= 0xffff_ffff_ffff_ffff;
        assert(amount as int * fee_bps as int <= amount as int * 10000) by (nonlinear_arith)
            requires fee_bps <= 10000;
        assert(fee_of(amount as int, fee_bps as int) <= amount as int) by (nonlinear_arith)
            requires fee_bps <= 10000, amount >= 0;
    }
    let wide: u128 = (amount as u128) * (fee_bps as u128);
    (wide / 10000u128) as u64
}

/// Splits a gross amount into the platform's fee and the recipient's share.
pub fn split(amount: u64, fee_bps: u64) -> (r: (u64, u64))
    requires
        fee_bps <= BPS_DENOMINATOR,
    ensures
        r.0 == fee_of(amount as int, fee_bps as int),
        r.0 + r.1 == amount,
{
    let fee = platform_fee(amount, fee_bps);
    (fee, amount - fee)
}

/// True exactly when `now` has reached the deadline `expires_at`.
pub fn is_expired(expires_at: i64, now: i64) -> (r: bool)
    ensures
        r == expired(expires_at as int, now as int),
{
    now >= expires_at
}

/// At one second before the deadline an escrow is live; at the deadline it has expired.
pub proof fn law_expiry_boundary(expires_at: int)
    ensures
        !expired(expires_at, expires_at - 1),
        expired(expires_at, expires_at),
{
}

/// The fee never exceeds the amount, so fee and net share add up to it exactly.
pub proof fn law_fee_conservation(amount: nat, fee_bps: nat)
    requires
        fee_bps <= 10000,
    ensures
        0 <= fee_of(amount as int, fee_bps as int) <= amount,
        fee_of(amount as int, fee_bps as int) + (amount - fee_of(amount as int, fee_bps as int))
            == amount,
{
    assert(0 <= amount * fee_bps / 10000 <= amount) by (nonlinear_arith)
        requires fee_bps <= 10000;
}

} // verus!

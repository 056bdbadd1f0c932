//! The fee calculator: the platform's share of an amount, in basis points.

use vstd::prelude::*;
use crate::error::Error;

verus! {

/// The highest fee rate: 10000 basis points, the whole amount.
pub const MAX_FEE_BPS: u32 = 10000;

/// The fee on `amount` at `bps` basis points, rounded down.
pub open spec fn spec_fee(amount: int, bps: int) -> int {
    amount * bps / 10000
}

/// A fee and the payout it leaves.
#[derive(Clone, Copy, Debug, PartialEq, Eq)]
pub struct Quote {
    pub fee: i128,
    pub payout: i128,
}

/// The fee never exceeds the amount nor falls below zero.
pub proof fn lemma_fee_bounds(amount: int, bps: int)
    requires
        0 <= amount,
        0 <= bps <= 10000,
    ensures
        0 <= spec_fee(amount, bps) <= amount,
{
    assert(0 <= amount * bps <= amount * 10000) by (nonlinear_arith)
        requires
            0 <= amount,
            0 <= bps <= 10000,
    ;
    assert(0 <= amount * bps / 10000 <= amount) by (nonlinear_arith)
        requires
            0 <= amount * bps <= amount * 10000,
    ;
}

/// The fee can be computed from the quotient and remainder of the amount by
/// 10000 without ever forming the product `amount * bps`.
pub proof fn lemma_fee_by_parts(amount: int, bps: int)
    requires
        0 <= amount,
        0 <= bps <= 10000,
    ensures
        spec_fee(amount, bps) == (amount / 10000) * bps + ((amount % 10000) * bps) / 10000,
{
    let q = amount / 10000;
    let r = amount % 10000;
    assert(amount == q * 10000 + r) by (nonlinear_arith)
        requires
            q == amount / 10000,
            r == amount % 10000,
    ;
    assert(amount * bps == (q * bps) * 10000 + r * bps) by (nonlinear_arith)
        requires
            amount == q * 10000 + r,
    ;
    assert(((q * bps) * 10000 + r * bps) / 10000 == q * bps + (r * bps) / 10000)
        by (nonlinear_arith);
}

/// The fee on `amount` at `fee_bps` basis points.
///
/// A non-positive amount is refused with `InvalidAmount`, and otherwise a
/// rate above 10000 with `InvalidFeeBps`. Every other input gives exactly
/// `floor(amount * fee_bps / 10000)`.
pub fn calculate_fee(amount: i128, fee_bps: u32) -> (res: Result<i128, Error>)
    ensures
        amount <= 0 ==> res == Err::<i128, Error>(Error::InvalidAmount),
        amount > 0 && fee_bps > 10000 ==> res == Err::<i128, Error>(Error::InvalidFeeBps),
        amount > 0 && fee_bps <= 10000 ==> res == Ok::<i128, Error>(
            spec_fee(amount as int, fee_bps as int) as i128,
        ),
        res is Ok ==> 0 <= res->Ok_0 <= amount && res->Ok_0 == spec_fee(
            amount as int,
            fee_bps as int,
        ),
{
    if amount <= 0 {
        return Err(Error::InvalidAmount);
    }
    if fee_bps > MAX_FEE_BPS {
        return Err(Error::InvalidFeeBps);
    }
    let bps: i128 = fee_bps as i128;
    let whole: i128 = amount / 10000;
    let rest: i128 = amount % 10000;
    proof {
        lemma_fee_bounds(amount as int, bps as int);
        lemma_fee_by_parts(amount as int, bps as int);
        assert(0 <= whole * bps <= whole * 10000 <= amount) by (nonlinear_arith)
            requires
                whole == amount as int / 10000,
                0 < amount,
                0 <= bps <= 10000,
        ;
        assert(0 <= rest * bps <= 100000000) by (nonlinear_arith)
            requires
                0 <= rest < 10000,
                0 <= bps <= 10000,
        ;
    }
    Ok(whole * bps + (rest * bps) / 10000)
}

/// The fee on `amount` and the payout that is left, which together make up
/// the amount exactly. Refuses what `calculate_fee` refuses.
pub fn quote(amount: i128, fee_bps: u32) -> (res: Result<Quote, Error>)
    ensures
        amount <= 0 ==> res == Err::<Quote, Error>(Error::InvalidAmount),
        amount > 0 && fee_bps > 10000 ==> res == Err::<Quote, Error>(Error::InvalidFeeBps),
        amount > 0 && fee_bps <= 10000 ==> res is Ok,
        res is Ok ==> {
            &&& res->Ok_0.fee == spec_fee(amount as int, fee_bps as int)
            &&& res->Ok_0.fee + res->Ok_0.payout == amount
            &&& 0 <= res->Ok_0.fee <= amount
            &&& 0 <= res->Ok_0.payout <= amount
        },
{
    match calculate_fee(amount, fee_bps) {
        Ok(fee) => Ok(Quote { fee, payout: amount - fee }),
        Err(e) => Err(e),
    }
}

} // verus!

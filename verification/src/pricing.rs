//! The bonding curve: conversions between the base asset and the issued
//! token at the current ratio of backing to supply.
//!
//! `backing` is the base-asset value the protocol answers for, `supply` the
//! number of issued tokens outstanding. Each conversion has its own rounding
//! and its own adjustment of the backing.

use vstd::prelude::*;
use crate::math::{
    lemma_ceil_is_floor_plus_carry, lemma_floor_bounds, lemma_floor_is_greatest, low64, mul_div,
    mul_div_ceil, mul_div_ceil_u64, mul_div_u64,
};

verus! {

/// Fixed-point scale of a price: the price of one whole token is
/// `backing * PRICE_PRECISION / supply`.
pub const PRICE_PRECISION: u64 = 1_000_000_000;

/// Tokens minted for a deposit. `backing` already holds the deposit, which is
/// taken out again so that a depositor does not dilute themself. Rounded down.
pub open spec fn trade_buy(deposit: int, supply: int, backing: int) -> int {
    mul_div(deposit, supply, backing - deposit)
}

/// Base asset paid out for burning tokens. Rounded down.
pub open spec fn trade_sell(burn: int, supply: int, backing: int) -> int {
    mul_div(burn, backing, supply)
}

/// The token value of a base-asset amount, rounded down.
pub open spec fn no_trade(amount: int, supply: int, backing: int) -> int {
    mul_div(amount, supply, backing)
}

/// The token value of a base-asset amount, rounded up: the collateral asked
/// for a loan of that amount.
pub open spec fn no_trade_ceil(amount: int, supply: int, backing: int) -> int {
    mul_div_ceil(amount, supply, backing)
}

/// Tokens minted as collateral of a leveraged position. The fee part is kept
/// out of the backing. Rounded up.
pub open spec fn leverage(amount: int, fee: int, supply: int, backing: int) -> int {
    mul_div_ceil(amount, supply, backing - fee)
}

/// The price of the token in fixed point.
pub open spec fn price(backing: int, supply: int) -> int {
    mul_div(backing, PRICE_PRECISION as int, supply)
}

/// Tokens minted for `deposit`, or `None` where the backing holds nothing
/// besides the deposit.
pub fn quote_trade_buy(deposit: u64, supply: u64, backing: u64) -> (tokens: Option<u64>)
    ensures
        tokens == (if backing <= deposit {
            None
        } else {
            Some(low64(trade_buy(deposit as int, supply as int, backing as int)) as u64)
        }),
{
    if backing <= deposit {
        None
    } else {
        Some(mul_div_u64(deposit, supply, backing - deposit))
    }
}

/// Base asset paid out for `burn` tokens, or `None` where no token exists.
pub fn quote_trade_sell(burn: u64, supply: u64, backing: u64) -> (amount: Option<u64>)
    ensures
        amount == (if supply == 0 {
            None
        } else {
            Some(low64(trade_sell(burn as int, supply as int, backing as int)) as u64)
        }),
{
    if supply == 0 {
        None
    } else {
        Some(mul_div_u64(burn, backing, supply))
    }
}

/// Token value of `amount`, rounded down, or `None` where the backing is
/// empty.
pub fn quote_no_trade(amount: u64, supply: u64, backing: u64) -> (tokens: Option<u64>)
    ensures
        tokens == (if backing == 0 {
            None
        } else {
            Some(low64(no_trade(amount as int, supply as int, backing as int)) as u64)
        }),
{
    if backing == 0 {
        None
    } else {
        Some(mul_div_u64(amount, supply, backing))
    }
}

/// Token value of `amount`, rounded up, or `None` where the backing is empty.
pub fn quote_no_trade_ceil(amount: u64, supply: u64, backing: u64) -> (tokens: Option<u64>)
    ensures
        tokens == (if backing == 0 {
            None
        } else {
            Some(low64(no_trade_ceil(amount as int, supply as int, backing as int)) as u64)
        }),
{
    if backing == 0 {
        None
    } else {
        Some(mul_div_ceil_u64(amount, supply, backing))
    }
}

/// Collateral minted for a leveraged `amount`, or `None` where the fee
/// takes up the whole backing.
pub fn quote_leverage(amount: u64, fee: u64, supply: u64, backing: u64) -> (tokens: Option<u64>)
    ensures
        tokens == (if backing <= fee {
            None
        } else {
            Some(
                low64(leverage(amount as int, fee as int, supply as int, backing as int)) as u64,
            )
        }),
{
    if backing <= fee {
        None
    } else {
        Some(mul_div_ceil_u64(amount, supply, backing - fee))
    }
}

/// The fixed-point price, or `None` where no token exists.
pub fn quote_price(backing: u64, supply: u64) -> (p: Option<u64>)
    ensures
        p == (if supply == 0 {
            None
        } else {
            Some(low64(price(backing as int, supply as int)) as u64)
        }),
{
    if supply == 0 {
        None
    } else {
        Some(mul_div_u64(backing, PRICE_PRECISION, supply))
    }
}

/// Rounding direction: the rounded-up token value is never below the
/// rounded-down one, exceeds it by at most one, and equals it exactly when
/// `amount * supply` is divisible by `backing`.
pub proof fn lemma_rounding_direction(amount: int, supply: int, backing: int)
    requires
        0 <= amount,
        0 <= supply,
        0 < backing,
    ensures
        no_trade(amount, supply, backing) <= no_trade_ceil(amount, supply, backing),
        no_trade_ceil(amount, supply, backing) <= no_trade(amount, supply, backing) + 1,
        no_trade_ceil(amount, supply, backing) == no_trade(amount, supply, backing) <==> (amount
            * supply) % backing == 0,
{
    lemma_ceil_is_floor_plus_carry(amount * supply, backing);
}

/// Rounding direction on the 64-bit results: as long as the rounded-up value
/// fits in 64 bits, what the two conversions return is ordered the same way.
pub proof fn lemma_rounding_direction_narrow(amount: u64, supply: u64, backing: u64)
    requires
        0 < backing,
        no_trade_ceil(amount as int, supply as int, backing as int) <= u64::MAX,
    ensures
        low64(no_trade(amount as int, supply as int, backing as int)) <= low64(
            no_trade_ceil(amount as int, supply as int, backing as int),
        ),
        low64(no_trade(amount as int, supply as int, backing as int)) == low64(
            no_trade_ceil(amount as int, supply as int, backing as int),
        ) <==> (amount * supply) % (backing as int) == 0,
{
    lemma_rounding_direction(amount as int, supply as int, backing as int);
}

/// Round-trip loss: tokens bought for a deposit never sell for more than the
/// deposit. `backing` is the backing before the deposit. The statement
/// covers every number of tokens up to the quoted one (a buy fee lowers what
/// is minted) and every backing up to the old one plus the deposit (a fee
/// paid out lowers what is left).
pub proof fn lemma_round_trip_loss(
    deposit: int,
    supply: int,
    backing: int,
    minted: int,
    backing_after: int,
)
    requires
        0 < deposit,
        0 <= supply,
        0 < backing,
        0 <= minted <= trade_buy(deposit, supply, backing + deposit),
        0 <= backing_after <= backing + deposit,
        0 < supply + minted,
    ensures
        trade_sell(minted, supply + minted, backing_after) <= deposit,
{
    let quoted = trade_buy(deposit, supply, backing + deposit);
    lemma_floor_bounds(deposit * supply, backing);
    // minted * backing <= quoted * backing <= deposit * supply
    assert(minted * backing <= quoted * backing) by (nonlinear_arith)
        requires
            0 <= minted <= quoted,
            0 < backing,
    ;
    assert(minted * backing_after <= minted * (backing + deposit)) by (nonlinear_arith)
        requires
            0 <= minted,
            backing_after <= backing + deposit,
    ;
    assert(minted * (backing + deposit) == minted * backing + minted * deposit)
        by (nonlinear_arith);
    assert(deposit * (supply + minted) == deposit * supply + minted * deposit)
        by (nonlinear_arith);
    vstd::arithmetic::div_mod::lemma_div_is_ordered(
        minted * backing_after,
        deposit * (supply + minted),
        supply + minted,
    );
    vstd::arithmetic::div_mod::lemma_div_multiples_vanish(deposit, supply + minted);
}

/// The collateral asked for a loan is worth at least the amount it was
/// asked for, at the backing it was computed with and at any larger one.
pub proof fn lemma_collateral_covers(amount: int, supply: int, backing: int, backing_after: int)
    requires
        0 <= amount,
        0 < supply,
        0 < backing <= backing_after,
    ensures
        amount <= trade_sell(no_trade_ceil(amount, supply, backing), supply, backing_after),
{
    let collateral = no_trade_ceil(amount, supply, backing);
    lemma_ceil_is_floor_plus_carry(amount * supply, backing);
    // amount * supply <= collateral * backing <= collateral * backing_after
    assert(collateral * backing <= collateral * backing_after) by (nonlinear_arith)
        requires
            0 <= collateral,
            backing <= backing_after,
    ;
    lemma_floor_is_greatest(collateral * backing_after, supply, amount);
}

} // verus!

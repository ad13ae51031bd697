//! Buying and selling the token against the reserve.

use vstd::prelude::*;
use crate::eggs::context::{Settlement, Trade};
use crate::eggs::error::EggsError;
use crate::eggs::states::{EggsState, FEES_BUY, FEES_SELL, FEE_BASE_1000, MIN};
use crate::eggs::utils::{
    checked_state, eggs_to_sol, eggs_to_sol_with_account, liquidate, safety_check_with_account,
    sol_to_eggs, sol_to_eggs_with_account, sweep,
};
use crate::math::{low64, mul_div, mul_div_u64};

verus! {

/// The part of `amount` that is left after a fee in parts of a thousand.
pub open spec fn after_fee(amount: u64, keeps: u16) -> u64 {
    low64(mul_div(amount as int, keeps as int, 1000)) as u64
}

/// The outcome of a purchase for `amount` lamports at time `now`.
///
/// The sweep runs one step. The deposit enters the state account and is
/// priced against the backing without it. The buyer receives the quoted
/// tokens less the buy fee, the fee address the 125th part of the deposit,
/// which has to exceed the minimum. The safety check ends the purchase.
pub open spec fn bought(ctx: Trade, now: i64, amount: u64) -> Result<(Trade, Settlement), EggsError> {
    match sweep(ctx.state, ctx.liquidation_data, ctx.escrow_token_amount, now) {
        Err(e) => Err(e),
        Ok(swept) => {
            let lamports = ctx.state_account_lamports + amount;
            let fee = amount / 125;
            if !swept.state.start {
                Err(EggsError::TradingNotInitialized)
            } else if ctx.receiver.is_unset() {
                Err(EggsError::InvalidParameter)
            } else if lamports > u64::MAX {
                Err(EggsError::ArithmeticOverflow)
            } else if swept.state.total_minted == 0 {
                Err(EggsError::InvalidParameter)
            } else {
                match sol_to_eggs(swept.state, lamports as u64, amount) {
                    Err(e) => Err(e),
                    Ok(eggs) => {
                        let minted = after_fee(eggs, swept.state.buy_fee);
                        if swept.state.total_minted + minted > u64::MAX {
                            Err(EggsError::MaxSupplyExceeded)
                        } else if fee <= MIN {
                            Err(EggsError::BelowMinimumValue)
                        } else {
                            match checked_state(
                                EggsState {
                                    total_minted: (swept.state.total_minted + minted) as u64,
                                    ..swept.state
                                },
                                (lamports - fee) as u64,
                                swept.escrow,
                            ) {
                                Err(e) => Err(e),
                                Ok(state) => Ok(
                                    (
                                        Trade {
                                            state,
                                            state_account_lamports: (lamports - fee) as u64,
                                            escrow_token_amount: swept.escrow,
                                            liquidation_data: swept.daily,
                                            ..ctx
                                        },
                                        Settlement {
                                            paid_in: amount,
                                            fee_paid: fee as u64,
                                            minted,
                                            forfeited: swept.forfeited,
                                            ..Settlement::nothing()
                                        },
                                    ),
                                ),
                            }
                        }
                    },
                }
            }
        },
    }
}

/// Buys tokens for `amount` lamports.
///
/// Fails with `TradingNotInitialized` before trading has started, with
/// `InvalidParameter` for an unset receiver or an empty backing or supply,
/// with `BelowMinimumValue` where the fee of the fee address does not exceed
/// the minimum, with `MaxSupplyExceeded` where the supply would leave 64
/// bits, and with whatever the sweep or the safety check fails with. A
/// failed purchase changes nothing; a successful one never lowers the
/// recorded price.
pub fn buy(ctx: &mut Trade, now: i64, amount: u64) -> (r: Result<Settlement, EggsError>)
    ensures
        match bought(*old(ctx), now, amount) {
            Ok((after, settlement)) => r == Ok::<Settlement, EggsError>(settlement) && *final(ctx)
                == after,
            Err(e) => r == Err::<Settlement, EggsError>(e) && *final(ctx) == *old(ctx),
        },
        r is Ok ==> final(ctx).state.last_price >= old(ctx).state.last_price,
        r matches Ok(settlement) ==> old(ctx).settles(*final(ctx), settlement),
        old(ctx).state.wf() ==> final(ctx).state.wf(),
{
    let mut state = ctx.state;
    let mut liquidation_data = ctx.liquidation_data;
    let mut escrow = ctx.escrow_token_amount;
    let forfeited = liquidate(&mut state, &mut liquidation_data, &mut escrow, now)?;
    if !state.start {
        return Err(EggsError::TradingNotInitialized);
    }
    if ctx.receiver.is_default() {
        return Err(EggsError::InvalidParameter);
    }
    let lamports = match ctx.state_account_lamports.checked_add(amount) {
        Some(sum) => sum,
        None => {
            return Err(EggsError::ArithmeticOverflow);
        },
    };
    if state.total_minted == 0 {
        return Err(EggsError::InvalidParameter);
    }
    let eggs = sol_to_eggs_with_account(&state, lamports, amount)?;
    let minted = mul_div_u64(eggs, state.buy_fee as u64, FEE_BASE_1000 as u64);
    let fee = amount / (FEES_BUY as u64);
    let supply = match state.total_minted.checked_add(minted) {
        Some(sum) => sum,
        None => {
            return Err(EggsError::MaxSupplyExceeded);
        },
    };
    if fee <= MIN {
        return Err(EggsError::BelowMinimumValue);
    }
    state.total_minted = supply;
    let left = lamports - fee;
    safety_check_with_account(&mut state, left, escrow)?;
    ctx.state = state;
    ctx.state_account_lamports = left;
    ctx.escrow_token_amount = escrow;
    ctx.liquidation_data = liquidation_data;
    let mut settlement = Settlement::none();
    settlement.paid_in = amount;
    settlement.fee_paid = fee;
    settlement.minted = minted;
    settlement.forfeited = forfeited;
    Ok(settlement)
}

/// The outcome of a sale of `eggs_amount` tokens at time `now`.
///
/// The sweep runs one step. The tokens are priced at the current backing
/// and burned. The seller receives the quoted lamports less the sell fee,
/// the fee address the 125th part of the quote, which has to exceed the
/// minimum. The safety check ends the sale.
pub open spec fn sold(ctx: Trade, now: i64, eggs_amount: u64) -> Result<
    (Trade, Settlement),
    EggsError,
> {
    match sweep(ctx.state, ctx.liquidation_data, ctx.escrow_token_amount, now) {
        Err(e) => Err(e),
        Ok(swept) => match eggs_to_sol(swept.state, ctx.state_account_lamports, eggs_amount) {
            Err(e) => Err(e),
            Ok(sol) => {
                let fee = sol / 125;
                let payout = after_fee(sol, swept.state.sell_fee);
                if swept.state.total_minted < eggs_amount {
                    Err(EggsError::InsufficientFunds)
                } else if fee <= MIN {
                    Err(EggsError::BelowMinimumValue)
                } else if ctx.state_account_lamports < payout + fee {
                    Err(EggsError::InsufficientFunds)
                } else {
                    match checked_state(
                        EggsState {
                            total_minted: (swept.state.total_minted - eggs_amount) as u64,
                            ..swept.state
                        },
                        (ctx.state_account_lamports - payout - fee) as u64,
                        swept.escrow,
                    ) {
                        Err(e) => Err(e),
                        Ok(state) => Ok(
                            (
                                Trade {
                                    state,
                                    state_account_lamports: (ctx.state_account_lamports - payout
                                        - fee) as u64,
                                    escrow_token_amount: swept.escrow,
                                    liquidation_data: swept.daily,
                                    ..ctx
                                },
                                Settlement {
                                    paid_out: payout,
                                    fee_paid: fee as u64,
                                    burned: eggs_amount,
                                    forfeited: swept.forfeited,
                                    ..Settlement::nothing()
                                },
                            ),
                        ),
                    }
                }
            },
        },
    }
}

/// Sells `eggs_amount` tokens.
///
/// Fails with `InvalidParameter` where no token is outstanding, with
/// `InsufficientFunds` where more tokens are sold than exist or the state
/// account cannot pay, with `BelowMinimumValue` where the fee of the fee
/// address does not exceed the minimum, and with whatever the sweep or the
/// safety check fails with. A failed sale changes nothing; a successful one
/// never lowers the recorded price.
pub fn sell(ctx: &mut Trade, now: i64, eggs_amount: u64) -> (r: Result<Settlement, EggsError>)
    ensures
        match sold(*old(ctx), now, eggs_amount) {
            Ok((after, settlement)) => r == Ok::<Settlement, EggsError>(settlement) && *final(ctx)
                == after,
            Err(e) => r == Err::<Settlement, EggsError>(e) && *final(ctx) == *old(ctx),
        },
        r is Ok ==> final(ctx).state.last_price >= old(ctx).state.last_price,
        r matches Ok(settlement) ==> old(ctx).settles(*final(ctx), settlement),
        old(ctx).state.wf() ==> final(ctx).state.wf(),
{
    let mut state = ctx.state;
    let mut liquidation_data = ctx.liquidation_data;
    let mut escrow = ctx.escrow_token_amount;
    let forfeited = liquidate(&mut state, &mut liquidation_data, &mut escrow, now)?;
    let sol = eggs_to_sol_with_account(&state, ctx.state_account_lamports, eggs_amount)?;
    if state.total_minted < eggs_amount {
        return Err(EggsError::InsufficientFunds);
    }
    let fee = sol / (FEES_SELL as u64);
    if fee <= MIN {
        return Err(EggsError::BelowMinimumValue);
    }
    let payout = mul_div_u64(sol, state.sell_fee as u64, FEE_BASE_1000 as u64);
    let left = match ctx.state_account_lamports.checked_sub(payout) {
        Some(rest) => match rest.checked_sub(fee) {
            Some(rest) => rest,
            None => {
                return Err(EggsError::InsufficientFunds);
            },
        },
        None => {
            return Err(EggsError::InsufficientFunds);
        },
    };
    state.total_minted = state.total_minted - eggs_amount;
    safety_check_with_account(&mut state, left, escrow)?;
    ctx.state = state;
    ctx.state_account_lamports = left;
    ctx.escrow_token_amount = escrow;
    ctx.liquidation_data = liquidation_data;
    let mut settlement = Settlement::none();
    settlement.paid_out = payout;
    settlement.fee_paid = fee;
    settlement.burned = eggs_amount;
    settlement.forfeited = forfeited;
    Ok(settlement)
}

} // verus!

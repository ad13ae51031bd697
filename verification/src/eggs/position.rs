//! Operations on a loan that is open: releasing collateral, repaying,
//! closing, and prolonging.

use vstd::prelude::*;
use crate::eggs::context::{LoanOperation, Settlement};
use crate::eggs::error::EggsError;
use crate::eggs::states::{DailyLoanData, EggsState, Loan, MIN};
use crate::eggs::utils::{
    checked_state, close_loan, eggs_to_sol, eggs_to_sol_with_account, get_interest_fee, interest,
    is_loan_expired, liquidate, loan_extended, loans_removed,
    process_loan_repayment, safety_check_with_account, sub_loans_by_date, sweep,
};
use crate::fees::{buffer, buffer_of, lendable, lendable_of, protocol_cut, protocol_cut_of};

verus! {

/// The outcome of releasing `amount` tokens of the collateral of the
/// caller's loan at time `now`.
///
/// What stays in escrow for the loan, sold at the current backing, has to
/// cover the debt at 99 hundredths.
pub open spec fn collateral_removed(ctx: LoanOperation, now: i64, amount: u64) -> Result<
    (LoanOperation, Settlement),
    EggsError,
> {
    if ctx.loan.expired_at(now as int) {
        Err(EggsError::LoanExpired)
    } else {
        match sweep(ctx.state, ctx.liquidation_data, ctx.escrow_token_amount, now) {
            Err(e) => Err(e),
            Ok(swept) => {
                if ctx.loan.collateral < amount {
                    Err(EggsError::InsufficientCollateral)
                } else {
                    match eggs_to_sol(
                        swept.state,
                        ctx.state_account_lamports,
                        (ctx.loan.collateral - amount) as u64,
                    ) {
                        Err(e) => Err(e),
                        Ok(value) => {
                            let (removed, daily) = loans_removed(
                                swept.state,
                                ctx.daily_loan_data,
                                0,
                                amount,
                            );
                            if ctx.loan.borrowed > lendable(value as int) {
                                Err(EggsError::InsufficientCollateral)
                            } else if ctx.daily_loan_data.date != ctx.loan.end_date {
                                Err(EggsError::InvalidParameter)
                            } else if swept.escrow < amount {
                                Err(EggsError::ContractBalanceInsufficient)
                            } else {
                                match checked_state(
                                    removed,
                                    ctx.state_account_lamports,
                                    (swept.escrow - amount) as u64,
                                ) {
                                    Err(e) => Err(e),
                                    Ok(state) => Ok(
                                        (
                                            LoanOperation {
                                                state,
                                                escrow_token_amount: (swept.escrow - amount) as u64,
                                                loan: Loan {
                                                    collateral: (ctx.loan.collateral
                                                        - amount) as u64,
                                                    ..ctx.loan
                                                },
                                                daily_loan_data: daily,
                                                liquidation_data: swept.daily,
                                                ..ctx
                                            },
                                            Settlement {
                                                released: amount,
                                                forfeited: swept.forfeited,
                                                ..Settlement::nothing()
                                            },
                                        ),
                                    ),
                                }
                            }
                        },
                    }
                }
            },
        }
    }
}

/// Releases `amount` tokens of the collateral of the caller's loan.
///
/// Fails with `LoanExpired` where the loan has run out, with
/// `InsufficientCollateral` where the loan holds fewer tokens or where the
/// rest would no longer cover the debt, with `InvalidParameter` where no
/// token is outstanding or `daily_loan_data` is not the bucket of the loan,
/// with `ContractBalanceInsufficient` where the escrow cannot hand the
/// tokens out, and with whatever the sweep or the safety check fails with.
/// A failed call changes nothing; a successful one never lowers the recorded
/// price.
pub fn remove_collateral(ctx: &mut LoanOperation, now: i64, amount: u64) -> (r: Result<
    Settlement,
    EggsError,
>)
    ensures
        match collateral_removed(*old(ctx), now, amount) {
            Ok((after, settlement)) => r == Ok::<Settlement, EggsError>(settlement) && *final(ctx)
                == after,
            Err(e) => r == Err::<Settlement, EggsError>(e) && *final(ctx) == *old(ctx),
        },
        r is Ok ==> final(ctx).state.last_price >= old(ctx).state.last_price,
        r matches Ok(settlement) ==> old(ctx).settles(*final(ctx), settlement),
        old(ctx).state.wf() ==> final(ctx).state.wf(),
{
    if is_loan_expired(&ctx.loan, now) {
        return Err(EggsError::LoanExpired);
    }
    let mut state = ctx.state;
    let mut liquidation_data = ctx.liquidation_data;
    let mut escrow = ctx.escrow_token_amount;
    let forfeited = liquidate(&mut state, &mut liquidation_data, &mut escrow, now)?;
    let collateral = ctx.loan.collateral;
    if collateral < amount {
        return Err(EggsError::InsufficientCollateral);
    }
    let sol_value = eggs_to_sol_with_account(
        &state,
        ctx.state_account_lamports,
        collateral - amount,
    )?;
    if ctx.loan.borrowed > lendable_of(sol_value) {
        return Err(EggsError::InsufficientCollateral);
    }
    if ctx.daily_loan_data.date != ctx.loan.end_date {
        return Err(EggsError::InvalidParameter);
    }
    if escrow < amount {
        return Err(EggsError::ContractBalanceInsufficient);
    }
    let held = escrow - amount;
    let mut daily = ctx.daily_loan_data;
    let _ = sub_loans_by_date(&mut state, &mut daily, 0, amount);
    safety_check_with_account(&mut state, ctx.state_account_lamports, held)?;
    ctx.state = state;
    ctx.escrow_token_amount = held;
    ctx.loan.collateral = collateral - amount;
    ctx.daily_loan_data = daily;
    ctx.liquidation_data = liquidation_data;
    let mut settlement = Settlement::none();
    settlement.released = amount;
    settlement.forfeited = forfeited;
    Ok(settlement)
}

/// The outcome of repaying `repay_amount` lamports of the caller's loan at
/// time `now`. The amount has to be above zero and below the debt.
pub open spec fn repaid(ctx: LoanOperation, now: i64, repay_amount: u64) -> Result<
    (LoanOperation, Settlement),
    EggsError,
> {
    let (removed, daily) = loans_removed(ctx.state, ctx.daily_loan_data, repay_amount, 0);
    if ctx.loan.borrowed <= repay_amount {
        Err(EggsError::RepayAmountTooLarge)
    } else if repay_amount == 0 {
        Err(EggsError::InvalidParameter)
    } else if ctx.loan.expired_at(now as int) {
        Err(EggsError::LoanExpired)
    } else if ctx.daily_loan_data.date != ctx.loan.end_date {
        Err(EggsError::InvalidParameter)
    } else if ctx.authority_lamports < repay_amount {
        Err(EggsError::InsufficientFunds)
    } else if ctx.state_account_lamports + repay_amount > u64::MAX {
        Err(EggsError::ArithmeticOverflow)
    } else {
        match checked_state(
            removed,
            (ctx.state_account_lamports + repay_amount) as u64,
            ctx.escrow_token_amount,
        ) {
            Err(e) => Err(e),
            Ok(state) => Ok(
                (
                    LoanOperation {
                        state,
                        state_account_lamports: (ctx.state_account_lamports + repay_amount) as u64,
                        loan: Loan {
                            borrowed: (ctx.loan.borrowed - repay_amount) as u64,
                            ..ctx.loan
                        },
                        daily_loan_data: daily,
                        ..ctx
                    },
                    Settlement { paid_in: repay_amount, ..Settlement::nothing() },
                ),
            ),
        }
    }
}

/// Repays `repay_amount` lamports of the caller's loan.
///
/// Fails with `RepayAmountTooLarge` unless the amount is below the debt,
/// with `InvalidParameter` for no lamports or where `daily_loan_data` is not
/// the bucket of the loan, with `LoanExpired` where the loan has run out,
/// with `InsufficientFunds` where the caller holds less than the amount, and
/// with whatever the safety check fails with. A failed call changes
/// nothing; a successful one never lowers the recorded price.
pub fn repay(ctx: &mut LoanOperation, now: i64, repay_amount: u64) -> (r: Result<
    Settlement,
    EggsError,
>)
    ensures
        match repaid(*old(ctx), now, repay_amount) {
            Ok((after, settlement)) => r == Ok::<Settlement, EggsError>(settlement) && *final(ctx)
                == after,
            Err(e) => r == Err::<Settlement, EggsError>(e) && *final(ctx) == *old(ctx),
        },
        r is Ok ==> final(ctx).state.last_price >= old(ctx).state.last_price,
        r matches Ok(settlement) ==> old(ctx).settles(*final(ctx), settlement),
        old(ctx).state.wf() ==> final(ctx).state.wf(),
{
    if ctx.loan.borrowed <= repay_amount {
        return Err(EggsError::RepayAmountTooLarge);
    }
    if repay_amount == 0 {
        return Err(EggsError::InvalidParameter);
    }
    if is_loan_expired(&ctx.loan, now) {
        return Err(EggsError::LoanExpired);
    }
    if ctx.daily_loan_data.date != ctx.loan.end_date {
        return Err(EggsError::InvalidParameter);
    }
    if ctx.authority_lamports < repay_amount {
        return Err(EggsError::InsufficientFunds);
    }
    let lamports = match ctx.state_account_lamports.checked_add(repay_amount) {
        Some(sum) => sum,
        None => {
            return Err(EggsError::ArithmeticOverflow);
        },
    };
    let mut state = ctx.state;
    let mut loan = ctx.loan;
    let mut daily = ctx.daily_loan_data;
    let _ = process_loan_repayment(&mut state, &mut loan, &mut daily, repay_amount);
    safety_check_with_account(&mut state, lamports, ctx.escrow_token_amount)?;
    ctx.state = state;
    ctx.state_account_lamports = lamports;
    ctx.loan = loan;
    ctx.daily_loan_data = daily;
    let mut settlement = Settlement::none();
    settlement.paid_in = repay_amount;
    Ok(settlement)
}

/// The outcome of closing the caller's loan at time `now` by repaying
/// `repay_amount` lamports, which has to be the whole debt. The collateral
/// goes back to the caller.
pub open spec fn position_closed(ctx: LoanOperation, now: i64, repay_amount: u64) -> Result<
    (LoanOperation, Settlement),
    EggsError,
> {
    let (removed, daily) = loans_removed(
        ctx.state,
        ctx.daily_loan_data,
        ctx.loan.borrowed,
        ctx.loan.collateral,
    );
    if ctx.loan.expired_at(now as int) {
        Err(EggsError::LoanExpired)
    } else if ctx.loan.borrowed != repay_amount {
        Err(EggsError::IncorrectRepaymentAmount)
    } else if ctx.daily_loan_data.date != ctx.loan.end_date {
        Err(EggsError::InvalidParameter)
    } else if ctx.authority_lamports < repay_amount {
        Err(EggsError::InsufficientFunds)
    } else if ctx.state_account_lamports + repay_amount > u64::MAX {
        Err(EggsError::ArithmeticOverflow)
    } else if ctx.escrow_token_amount < ctx.loan.collateral {
        Err(EggsError::ContractBalanceInsufficient)
    } else {
        match checked_state(
            removed,
            (ctx.state_account_lamports + repay_amount) as u64,
            (ctx.escrow_token_amount - ctx.loan.collateral) as u64,
        ) {
            Err(e) => Err(e),
            Ok(state) => Ok(
                (
                    LoanOperation {
                        state,
                        state_account_lamports: (ctx.state_account_lamports + repay_amount) as u64,
                        escrow_token_amount: (ctx.escrow_token_amount
                            - ctx.loan.collateral) as u64,
                        loan: ctx.loan.cleared(),
                        daily_loan_data: daily,
                        ..ctx
                    },
                    Settlement {
                        paid_in: repay_amount,
                        released: ctx.loan.collateral,
                        ..Settlement::nothing()
                    },
                ),
            ),
        }
    }
}

/// Closes the caller's loan by repaying the whole debt and hands the
/// collateral back.
///
/// Fails with `LoanExpired` where the loan has run out, with
/// `IncorrectRepaymentAmount` unless `repay_amount` is the debt, with
/// `InvalidParameter` where `daily_loan_data` is not the bucket of the loan,
/// with `InsufficientFunds` where the caller holds less than the debt, with
/// `ContractBalanceInsufficient` where the escrow cannot hand the collateral
/// out, and with whatever the safety check fails with. A failed
/// call changes nothing; a successful one never lowers the recorded price.
pub fn close_position(ctx: &mut LoanOperation, now: i64, repay_amount: u64) -> (r: Result<
    Settlement,
    EggsError,
>)
    ensures
        match position_closed(*old(ctx), now, repay_amount) {
            Ok((after, settlement)) => r == Ok::<Settlement, EggsError>(settlement) && *final(ctx)
                == after,
            Err(e) => r == Err::<Settlement, EggsError>(e) && *final(ctx) == *old(ctx),
        },
        r is Ok ==> final(ctx).state.last_price >= old(ctx).state.last_price,
        r matches Ok(settlement) ==> old(ctx).settles(*final(ctx), settlement),
        old(ctx).state.wf() ==> final(ctx).state.wf(),
{
    let borrowed = ctx.loan.borrowed;
    let collateral = ctx.loan.collateral;
    if is_loan_expired(&ctx.loan, now) {
        return Err(EggsError::LoanExpired);
    }
    if borrowed != repay_amount {
        return Err(EggsError::IncorrectRepaymentAmount);
    }
    if ctx.daily_loan_data.date != ctx.loan.end_date {
        return Err(EggsError::InvalidParameter);
    }
    if ctx.authority_lamports < repay_amount {
        return Err(EggsError::InsufficientFunds);
    }
    let lamports = match ctx.state_account_lamports.checked_add(repay_amount) {
        Some(sum) => sum,
        None => {
            return Err(EggsError::ArithmeticOverflow);
        },
    };
    if ctx.escrow_token_amount < collateral {
        return Err(EggsError::ContractBalanceInsufficient);
    }
    let held = ctx.escrow_token_amount - collateral;
    let mut state = ctx.state;
    let mut loan = ctx.loan;
    let mut daily = ctx.daily_loan_data;
    let _ = close_loan(&mut state, &mut loan, &mut daily);
    safety_check_with_account(&mut state, lamports, held)?;
    ctx.state = state;
    ctx.state_account_lamports = lamports;
    ctx.escrow_token_amount = held;
    ctx.loan = loan;
    ctx.daily_loan_data = daily;
    let mut settlement = Settlement::none();
    settlement.paid_in = repay_amount;
    settlement.released = collateral;
    Ok(settlement)
}

/// The outcome of closing the caller's loan at time `now` out of its own
/// collateral.
///
/// The collateral is sold at the current backing and burned. Of its value,
/// 99 hundredths have to cover the debt; what they exceed it by goes to the
/// caller. Of the remaining hundredth the fee address receives its cut,
/// which has to exceed the minimum.
pub open spec fn position_flash_closed(ctx: LoanOperation, now: i64) -> Result<
    (LoanOperation, Settlement),
    EggsError,
> {
    if ctx.loan.expired_at(now as int) {
        Err(EggsError::LoanExpired)
    } else {
        match sweep(ctx.state, ctx.liquidation_data, ctx.escrow_token_amount, now) {
            Err(e) => Err(e),
            Ok(swept) => match eggs_to_sol(
                swept.state,
                ctx.state_account_lamports,
                ctx.loan.collateral,
            ) {
                Err(e) => Err(e),
                Ok(value) => {
                    let to_user = lendable(value as int) - ctx.loan.borrowed;
                    let cut = protocol_cut(buffer(value as int));
                    let lamports = ctx.state_account_lamports - to_user - cut;
                    let (removed, daily) = loans_removed(
                        EggsState {
                            total_minted: (swept.state.total_minted - ctx.loan.collateral) as u64,
                            ..swept.state
                        },
                        ctx.daily_loan_data,
                        ctx.loan.borrowed,
                        ctx.loan.collateral,
                    );
                    if swept.escrow < ctx.loan.collateral {
                        Err(EggsError::ContractBalanceInsufficient)
                    } else if swept.state.total_minted < ctx.loan.collateral {
                        Err(EggsError::ArithmeticOverflow)
                    } else if to_user < 0 {
                        Err(EggsError::InsufficientCollateral)
                    } else if ctx.state_account_lamports < to_user {
                        Err(EggsError::InsufficientFunds)
                    } else if cut <= MIN {
                        Err(EggsError::BelowMinimumValue)
                    } else if lamports < 0 {
                        Err(EggsError::InsufficientFunds)
                    } else if ctx.daily_loan_data.date != ctx.loan.end_date {
                        Err(EggsError::InvalidParameter)
                    } else {
                        match checked_state(
                            removed,
                            lamports as u64,
                            (swept.escrow - ctx.loan.collateral) as u64,
                        ) {
                            Err(e) => Err(e),
                            Ok(state) => Ok(
                                (
                                    LoanOperation {
                                        state,
                                        state_account_lamports: lamports as u64,
                                        escrow_token_amount: (swept.escrow
                                            - ctx.loan.collateral) as u64,
                                        loan: ctx.loan.cleared(),
                                        daily_loan_data: daily,
                                        liquidation_data: swept.daily,
                                        ..ctx
                                    },
                                    Settlement {
                                        paid_out: to_user as u64,
                                        fee_paid: cut as u64,
                                        forfeited: (swept.forfeited + ctx.loan.collateral) as u64,
                                        ..Settlement::nothing()
                                    },
                                ),
                            ),
                        }
                    }
                },
            },
        }
    }
}

/// Closes the caller's loan out of its own collateral.
///
/// Fails with `LoanExpired` where the loan has run out, with
/// `InsufficientCollateral` where the collateral does not cover the debt,
/// with `BelowMinimumValue` where the cut of the fee address does not exceed
/// the minimum, with `InsufficientFunds` where the state account cannot
/// pay, with `ContractBalanceInsufficient` where the escrow does not hold the
/// collateral, with `InvalidParameter` where no token is outstanding or
/// `daily_loan_data` is not the bucket of the loan, and with whatever the
/// sweep or the safety check fails with. A failed call changes nothing; a
/// successful one never lowers the recorded price.
pub fn flash_close_position(ctx: &mut LoanOperation, now: i64) -> (r: Result<
    Settlement,
    EggsError,
>)
    ensures
        match position_flash_closed(*old(ctx), now) {
            Ok((after, settlement)) => r == Ok::<Settlement, EggsError>(settlement) && *final(ctx)
                == after,
            Err(e) => r == Err::<Settlement, EggsError>(e) && *final(ctx) == *old(ctx),
        },
        r is Ok ==> final(ctx).state.last_price >= old(ctx).state.last_price,
        r matches Ok(settlement) ==> old(ctx).settles(*final(ctx), settlement),
        old(ctx).state.wf() ==> final(ctx).state.wf(),
{
    if is_loan_expired(&ctx.loan, now) {
        return Err(EggsError::LoanExpired);
    }
    let mut state = ctx.state;
    let mut liquidation_data = ctx.liquidation_data;
    let mut escrow = ctx.escrow_token_amount;
    let forfeited = liquidate(&mut state, &mut liquidation_data, &mut escrow, now)?;
    let borrowed = ctx.loan.borrowed;
    let collateral = ctx.loan.collateral;
    let collateral_in_sol = eggs_to_sol_with_account(
        &state,
        ctx.state_account_lamports,
        collateral,
    )?;
    if escrow < collateral {
        return Err(EggsError::ContractBalanceInsufficient);
    }
    if state.total_minted < collateral {
        return Err(EggsError::ArithmeticOverflow);
    }
    let collateral_in_sol_after_fee = lendable_of(collateral_in_sol);
    let fee = buffer_of(collateral_in_sol);
    if collateral_in_sol_after_fee < borrowed {
        return Err(EggsError::InsufficientCollateral);
    }
    let to_user = collateral_in_sol_after_fee - borrowed;
    let fee_address_fee = protocol_cut_of(fee);
    if ctx.state_account_lamports < to_user {
        return Err(EggsError::InsufficientFunds);
    }
    if fee_address_fee <= MIN {
        return Err(EggsError::BelowMinimumValue);
    }
    if ctx.state_account_lamports - to_user < fee_address_fee {
        return Err(EggsError::InsufficientFunds);
    }
    if ctx.daily_loan_data.date != ctx.loan.end_date {
        return Err(EggsError::InvalidParameter);
    }
    let left = ctx.state_account_lamports - to_user - fee_address_fee;
    let held = escrow - collateral;
    state.total_minted = state.total_minted - collateral;
    let mut loan = ctx.loan;
    let mut daily = ctx.daily_loan_data;
    let _ = close_loan(&mut state, &mut loan, &mut daily);
    safety_check_with_account(&mut state, left, held)?;
    ctx.state = state;
    ctx.state_account_lamports = left;
    ctx.escrow_token_amount = held;
    ctx.loan = loan;
    ctx.daily_loan_data = daily;
    ctx.liquidation_data = liquidation_data;
    let mut settlement = Settlement::none();
    settlement.paid_out = to_user;
    settlement.fee_paid = fee_address_fee;
    settlement.forfeited = forfeited + collateral;
    Ok(settlement)
}

/// The outcome of prolonging the caller's loan by `number_of_days` days at
/// time `now`, for which the caller hands over `payment` lamports.
///
/// The payment has to be the interest on the debt for the added days. The
/// loan moves to the bucket of its new last day, which may lie no more than
/// a year ahead. The fee address receives its cut of the interest, which has
/// to exceed the minimum.
pub open spec fn loan_prolonged(
    ctx: LoanOperation,
    new_daily: DailyLoanData,
    now: i64,
    number_of_days: u64,
    payment: u64,
) -> Result<(LoanOperation, DailyLoanData, Settlement), EggsError> {
    let fee = interest(ctx.loan.borrowed, number_of_days);
    let cut = protocol_cut(fee);
    let lamports = ctx.state_account_lamports + fee - cut;
    if ctx.loan.expired_at(now as int) {
        Err(EggsError::LoanExpired)
    } else if number_of_days >= 366 {
        Err(EggsError::LoanTooLong)
    } else if payment != fee {
        Err(EggsError::InvalidFeeAmount)
    } else if ctx.authority_lamports < payment {
        Err(EggsError::InsufficientFunds)
    } else if ctx.state_account_lamports + fee > u64::MAX {
        Err(EggsError::ArithmeticOverflow)
    } else if cut <= MIN {
        Err(EggsError::BelowMinimumValue)
    } else if ctx.daily_loan_data.date != ctx.loan.end_date {
        Err(EggsError::InvalidParameter)
    } else {
        match loan_extended(ctx.state, ctx.loan, ctx.daily_loan_data, new_daily, number_of_days) {
            Err(e) => Err(e),
            Ok(extended) => {
                if (extended.loan.end_date - now) / 86400 >= 366 {
                    Err(EggsError::LoanTooLong)
                } else {
                    match checked_state(
                        extended.state,
                        lamports as u64,
                        ctx.escrow_token_amount,
                    ) {
                        Err(e) => Err(e),
                        Ok(state) => Ok(
                            (
                                LoanOperation {
                                    state,
                                    state_account_lamports: lamports as u64,
                                    loan: extended.loan,
                                    daily_loan_data: extended.old_daily,
                                    ..ctx
                                },
                                extended.new_daily,
                                Settlement {
                                    paid_in: payment,
                                    fee_paid: cut as u64,
                                    ..Settlement::nothing()
                                },
                            ),
                        ),
                    }
                }
            },
        }
    }
}

/// Prolongs the caller's loan by `number_of_days` days. `new_daily_loan_data`
/// is the bucket of the day the loan will end on, `payment` what the caller
/// hands over.
///
/// Fails with `LoanExpired` where the loan has run out, with `LoanTooLong`
/// for 366 days or more or where the loan would end a year or more ahead,
/// with `InvalidFeeAmount` unless `payment` is the interest due, with
/// `InsufficientFunds` where the caller holds less than the payment, with
/// `BelowMinimumValue` where the cut of the fee address does not exceed the
/// minimum, with `InvalidParameter` for no days or a bucket of the wrong
/// day, and with whatever the safety check fails with. A failed call changes
/// nothing; a successful one never lowers the recorded price.
pub fn extend_loan(
    ctx: &mut LoanOperation,
    new_daily_loan_data: &mut DailyLoanData,
    now: i64,
    number_of_days: u64,
    payment: u64,
) -> (r: Result<Settlement, EggsError>)
    ensures
        match loan_prolonged(*old(ctx), *old(new_daily_loan_data), now, number_of_days, payment) {
            Ok((after, new_daily, settlement)) => {
                &&& r == Ok::<Settlement, EggsError>(settlement)
                &&& *final(ctx) == after
                &&& *final(new_daily_loan_data) == new_daily
            },
            Err(e) => {
                &&& r == Err::<Settlement, EggsError>(e)
                &&& *final(ctx) == *old(ctx)
                &&& *final(new_daily_loan_data) == *old(new_daily_loan_data)
            },
        },
        r is Ok ==> final(ctx).state.last_price >= old(ctx).state.last_price,
        r matches Ok(settlement) ==> old(ctx).settles(*final(ctx), settlement),
        old(ctx).state.wf() ==> final(ctx).state.wf(),
{
    if is_loan_expired(&ctx.loan, now) {
        return Err(EggsError::LoanExpired);
    }
    let loan_fee = get_interest_fee(ctx.loan.borrowed, number_of_days)?;
    if payment != loan_fee {
        return Err(EggsError::InvalidFeeAmount);
    }
    if ctx.authority_lamports < payment {
        return Err(EggsError::InsufficientFunds);
    }
    let lamports = match ctx.state_account_lamports.checked_add(loan_fee) {
        Some(sum) => sum,
        None => {
            return Err(EggsError::ArithmeticOverflow);
        },
    };
    let fee_address_fee = protocol_cut_of(loan_fee);
    if fee_address_fee <= MIN {
        return Err(EggsError::BelowMinimumValue);
    }
    if ctx.daily_loan_data.date != ctx.loan.end_date {
        return Err(EggsError::InvalidParameter);
    }
    let mut state = ctx.state;
    let mut loan = ctx.loan;
    let mut old_daily = ctx.daily_loan_data;
    let mut new_daily = *new_daily_loan_data;
    crate::eggs::utils::extend_loan(
        &mut state,
        &mut loan,
        &mut old_daily,
        &mut new_daily,
        number_of_days,
    )?;
    let ahead: i128 = ((loan.end_date as i128) - (now as i128)) / 86400;
    if ahead >= 366 {
        return Err(EggsError::LoanTooLong);
    }
    let left = lamports - fee_address_fee;
    safety_check_with_account(&mut state, left, ctx.escrow_token_amount)?;
    ctx.state = state;
    ctx.state_account_lamports = left;
    ctx.loan = loan;
    ctx.daily_loan_data = old_daily;
    *new_daily_loan_data = new_daily;
    let mut settlement = Settlement::none();
    settlement.paid_in = payment;
    settlement.fee_paid = fee_address_fee;
    Ok(settlement)
}

} // verus!

//! Opening a loan and enlarging it.

use vstd::prelude::*;
use crate::calendar::{
    checked_term_end, get_midnight_timestamp, next_midnight, term_end, term_fits,
};
use crate::eggs::context::{LoanOperation, Settlement};
use crate::eggs::error::EggsError;
use crate::eggs::states::{EggsState, Loan, FEE_BASE_1000, MIN};
use crate::eggs::trading::after_fee;
use crate::eggs::utils::{
    add_loans_by_date, checked_state, get_interest_fee, interest, is_loan_expired, liquidate,
    loan_created, loans_added, minus, process_loan_creation, safety_check_with_account,
    sol_to_eggs_lev, sol_to_eggs_lev_with_account, sol_to_eggs_no_trade,
    sol_to_eggs_no_trade_ceil, sol_to_eggs_no_trade_ceil_with_account,
    sol_to_eggs_no_trade_with_account, sweep,
};
use crate::fees::{buffer, buffer_of, lendable, lendable_of, protocol_cut, protocol_cut_of};
use crate::math::mul_div_u64;

verus! {

/// The loan as an operation that opens a loan finds it: cleared where it
/// has run out.
pub open spec fn settled(loan: Loan, now: i64) -> Loan {
    if loan.expired_at(now as int) {
        loan.cleared()
    } else {
        loan
    }
}

/// The outcome of opening a leveraged position of `sol` lamports for
/// `number_of_days` days at time `now`.
///
/// The fee is the leverage fee plus the interest. What is left of `sol` is
/// the position: 99 hundredths of it are lent, and its collateral is minted
/// into escrow. The caller pays the fee and the remaining hundredth. The
/// fee address receives its cut of the fee, which has to exceed the minimum.
pub open spec fn leveraged(ctx: LoanOperation, now: i64, sol: u64, number_of_days: u64) -> Result<
    (LoanOperation, Settlement),
    EggsError,
> {
    if !ctx.state.start {
        Err(EggsError::TradingNotInitialized)
    } else if number_of_days >= 366 {
        Err(EggsError::LoanTooLong)
    } else if settled(ctx.loan, now).borrowed != 0 {
        Err(EggsError::UserHasActiveLoan)
    } else {
        match sweep(ctx.state, ctx.liquidation_data, ctx.escrow_token_amount, now) {
            Err(e) => Err(e),
            Ok(swept) => {
                let total_fee = after_fee(sol, swept.state.buy_fee_leverage) + interest(
                    sol,
                    number_of_days,
                );
                let user_sol = sol - total_fee;
                let cut = protocol_cut(total_fee);
                let payment = total_fee + buffer(user_sol);
                let lamports = ctx.state_account_lamports + payment;
                if !term_fits(now, number_of_days) {
                    Err(EggsError::ArithmeticOverflow)
                } else if total_fee > sol {
                    Err(EggsError::FeeCalculationError)
                } else if ctx.authority_lamports < payment {
                    Err(EggsError::InsufficientFunds)
                } else if lamports > u64::MAX {
                    Err(EggsError::ArithmeticOverflow)
                } else {
                    match sol_to_eggs_lev(
                        swept.state,
                        lamports as u64,
                        user_sol as u64,
                        (cut + buffer(user_sol)) as u64,
                    ) {
                        Err(e) => Err(e),
                        Ok(user_eggs) => {
                            if swept.state.total_minted + user_eggs > u64::MAX {
                                Err(EggsError::MaxSupplyExceeded)
                            } else if swept.escrow + user_eggs > u64::MAX {
                                Err(EggsError::ArithmeticOverflow)
                            } else if cut <= MIN {
                                Err(EggsError::BelowMinimumValue)
                            } else {
                                match loan_created(
                                    EggsState {
                                        total_minted: (swept.state.total_minted + user_eggs) as u64,
                                        ..swept.state
                                    },
                                    ctx.daily_loan_data,
                                    term_end(now as int, number_of_days as int) as i64,
                                    user_eggs,
                                    lendable(user_sol) as u64,
                                    number_of_days,
                                    ctx.authority,
                                ) {
                                    Err(e) => Err(e),
                                    Ok((entered, loan, daily)) => match checked_state(
                                        entered,
                                        (lamports - cut) as u64,
                                        (swept.escrow + user_eggs) as u64,
                                    ) {
                                        Err(e) => Err(e),
                                        Ok(state) => Ok(
                                            (
                                                LoanOperation {
                                                    state,
                                                    state_account_lamports: (lamports - cut) as u64,
                                                    escrow_token_amount: (swept.escrow
                                                        + user_eggs) as u64,
                                                    loan,
                                                    daily_loan_data: daily,
                                                    liquidation_data: swept.daily,
                                                    ..ctx
                                                },
                                                Settlement {
                                                    paid_in: payment as u64,
                                                    fee_paid: cut as u64,
                                                    minted_to_escrow: user_eggs,
                                                    forfeited: swept.forfeited,
                                                    ..Settlement::nothing()
                                                },
                                            ),
                                        ),
                                    },
                                }
                            }
                        },
                    }
                }
            },
        }
    }
}

/// Opens a leveraged position of `sol` lamports for `number_of_days` days:
/// a loan whose collateral is minted for it.
///
/// Fails with `TradingNotInitialized` before trading has started, with
/// `LoanTooLong` for 366 days or more, with `UserHasActiveLoan` where the
/// caller has a loan that has not run out, with `InsufficientFunds` where
/// the caller cannot pay, with `BelowMinimumValue` where the cut of the fee
/// address does not exceed the minimum, with `InvalidParameter` where
/// `daily_loan_data` belongs to another day than the loan ends on, and with
/// whatever the sweep or the safety check fails with. A failed call changes
/// nothing; a successful one never lowers the recorded price.
pub fn leverage(ctx: &mut LoanOperation, now: i64, sol: u64, number_of_days: u64) -> (r: Result<
    Settlement,
    EggsError,
>)
    ensures
        match leveraged(*old(ctx), now, sol, number_of_days) {
            Ok((after, settlement)) => r == Ok::<Settlement, EggsError>(settlement) && *final(ctx)
                == after,
            Err(e) => r == Err::<Settlement, EggsError>(e) && *final(ctx) == *old(ctx),
        },
        r is Ok ==> final(ctx).state.last_price >= old(ctx).state.last_price,
        r matches Ok(settlement) ==> old(ctx).settles(*final(ctx), settlement),
        old(ctx).state.wf() ==> final(ctx).state.wf(),
{
    if !ctx.state.start {
        return Err(EggsError::TradingNotInitialized);
    }
    if number_of_days >= 366 {
        return Err(EggsError::LoanTooLong);
    }
    let mut loan = ctx.loan;
    if is_loan_expired(&loan, now) {
        loan.collateral = 0;
        loan.borrowed = 0;
        loan.end_date = 0;
        loan.number_of_days = 0;
    }
    if loan.borrowed != 0 {
        return Err(EggsError::UserHasActiveLoan);
    }
    let mut state = ctx.state;
    let mut liquidation_data = ctx.liquidation_data;
    let mut escrow = ctx.escrow_token_amount;
    let forfeited = liquidate(&mut state, &mut liquidation_data, &mut escrow, now)?;
    let end_date = match checked_term_end(now, number_of_days) {
        Some(date) => date,
        None => {
            return Err(EggsError::ArithmeticOverflow);
        },
    };
    let sol_fee = mul_div_u64(sol, state.buy_fee_leverage as u64, FEE_BASE_1000 as u64);
    let interest_fee = get_interest_fee(sol, number_of_days)?;
    let total_fee: u128 = (sol_fee as u128) + (interest_fee as u128);
    if total_fee > sol as u128 {
        return Err(EggsError::FeeCalculationError);
    }
    let total_fee: u64 = total_fee as u64;
    let user_sol = sol - total_fee;
    let fee_address_amount = protocol_cut_of(total_fee);
    let user_borrow = lendable_of(user_sol);
    let over_collateralization_amount = buffer_of(user_sol);
    let total_required_payment = total_fee + over_collateralization_amount;
    if ctx.authority_lamports < total_required_payment {
        return Err(EggsError::InsufficientFunds);
    }
    let lamports = match ctx.state_account_lamports.checked_add(total_required_payment) {
        Some(sum) => sum,
        None => {
            return Err(EggsError::ArithmeticOverflow);
        },
    };
    let sub_value = fee_address_amount + over_collateralization_amount;
    let user_eggs = sol_to_eggs_lev_with_account(&state, lamports, user_sol, sub_value)?;
    let supply = match state.total_minted.checked_add(user_eggs) {
        Some(sum) => sum,
        None => {
            return Err(EggsError::MaxSupplyExceeded);
        },
    };
    let held = match escrow.checked_add(user_eggs) {
        Some(sum) => sum,
        None => {
            return Err(EggsError::ArithmeticOverflow);
        },
    };
    if fee_address_amount <= MIN {
        return Err(EggsError::BelowMinimumValue);
    }
    state.total_minted = supply;
    let mut daily = ctx.daily_loan_data;
    process_loan_creation(
        &mut state,
        &mut loan,
        &mut daily,
        end_date,
        user_eggs,
        user_borrow,
        number_of_days,
        ctx.authority,
    )?;
    let left = lamports - fee_address_amount;
    safety_check_with_account(&mut state, left, held)?;
    ctx.state = state;
    ctx.state_account_lamports = left;
    ctx.escrow_token_amount = held;
    ctx.loan = loan;
    ctx.daily_loan_data = daily;
    ctx.liquidation_data = liquidation_data;
    let mut settlement = Settlement::none();
    settlement.paid_in = total_required_payment;
    settlement.fee_paid = fee_address_amount;
    settlement.minted_to_escrow = user_eggs;
    settlement.forfeited = forfeited;
    Ok(settlement)
}

/// The outcome of borrowing against `sol` lamports' worth of the caller's
/// tokens for `number_of_days` days at time `now`.
///
/// The collateral is the token value of `sol`, rounded up; the caller moves
/// it into escrow. The loan is 99 hundredths of `sol`. The caller receives
/// the loan less the interest, the fee address its cut of the interest,
/// which has to exceed the minimum.
pub open spec fn borrowed(ctx: LoanOperation, now: i64, sol: u64, number_of_days: u64) -> Result<
    (LoanOperation, Settlement),
    EggsError,
> {
    if number_of_days >= 366 {
        Err(EggsError::LoanTooLong)
    } else if sol == 0 {
        Err(EggsError::InvalidParameter)
    } else if settled(ctx.loan, now).borrowed != 0 {
        Err(EggsError::UserHasActiveLoan)
    } else {
        match sweep(ctx.state, ctx.liquidation_data, ctx.escrow_token_amount, now) {
            Err(e) => Err(e),
            Ok(swept) => {
                let fee = interest(sol, number_of_days);
                let cut = protocol_cut(fee);
                let loaned = lendable(sol as int);
                let lamports = ctx.state_account_lamports - cut - (loaned - fee);
                if !term_fits(now, number_of_days) {
                    Err(EggsError::ArithmeticOverflow)
                } else {
                    match sol_to_eggs_no_trade_ceil(swept.state, ctx.state_account_lamports, sol) {
                        Err(e) => Err(e),
                        Ok(user_eggs) => {
                            if ctx.authority_token_amount < user_eggs {
                                Err(EggsError::InsufficientCollateral)
                            } else if swept.escrow + user_eggs > u64::MAX {
                                Err(EggsError::ArithmeticOverflow)
                            } else {
                                match loan_created(
                                    swept.state,
                                    ctx.daily_loan_data,
                                    term_end(now as int, number_of_days as int) as i64,
                                    user_eggs,
                                    loaned as u64,
                                    number_of_days,
                                    ctx.authority,
                                ) {
                                    Err(e) => Err(e),
                                    Ok((entered, loan, daily)) => {
                                        if cut <= MIN {
                                            Err(EggsError::BelowMinimumValue)
                                        } else if loaned < fee {
                                            Err(EggsError::FeeCalculationError)
                                        } else if lamports < 0 {
                                            Err(EggsError::InsufficientFunds)
                                        } else {
                                            match checked_state(
                                                entered,
                                                lamports as u64,
                                                (swept.escrow + user_eggs) as u64,
                                            ) {
                                                Err(e) => Err(e),
                                                Ok(state) => Ok(
                                                    (
                                                        LoanOperation {
                                                            state,
                                                            state_account_lamports: lamports as u64,
                                                            escrow_token_amount: (swept.escrow
                                                                + user_eggs) as u64,
                                                            loan,
                                                            daily_loan_data: daily,
                                                            liquidation_data: swept.daily,
                                                            ..ctx
                                                        },
                                                        Settlement {
                                                            paid_out: (loaned - fee) as u64,
                                                            fee_paid: cut as u64,
                                                            escrowed: user_eggs,
                                                            forfeited: swept.forfeited,
                                                            ..Settlement::nothing()
                                                        },
                                                    ),
                                                ),
                                            }
                                        }
                                    },
                                }
                            }
                        },
                    }
                }
            },
        }
    }
}

/// Borrows against the caller's own tokens: `sol` lamports' worth of them
/// become the collateral of a loan of `number_of_days` days.
///
/// Fails with `LoanTooLong` for 366 days or more, with `InvalidParameter`
/// for no lamports, an empty backing, or a `daily_loan_data` of another day
/// than the loan ends on, with `UserHasActiveLoan` where the caller has a
/// loan that has not run out, with `InsufficientCollateral` where the caller
/// holds fewer tokens than asked, with `BelowMinimumValue` where the cut of
/// the fee address does not exceed the minimum, with `InsufficientFunds`
/// where the state account cannot pay, and with whatever the sweep or the
/// safety check fails with. A failed call changes nothing; a successful one
/// never lowers the recorded price.
pub fn borrow(ctx: &mut LoanOperation, now: i64, sol: u64, number_of_days: u64) -> (r: Result<
    Settlement,
    EggsError,
>)
    ensures
        match borrowed(*old(ctx), now, sol, number_of_days) {
            Ok((after, settlement)) => r == Ok::<Settlement, EggsError>(settlement) && *final(ctx)
                == after,
            Err(e) => r == Err::<Settlement, EggsError>(e) && *final(ctx) == *old(ctx),
        },
        r is Ok ==> final(ctx).state.last_price >= old(ctx).state.last_price,
        r matches Ok(settlement) ==> old(ctx).settles(*final(ctx), settlement),
        old(ctx).state.wf() ==> final(ctx).state.wf(),
{
    if number_of_days >= 366 {
        return Err(EggsError::LoanTooLong);
    }
    if sol == 0 {
        return Err(EggsError::InvalidParameter);
    }
    let mut loan = ctx.loan;
    if is_loan_expired(&loan, now) {
        loan.collateral = 0;
        loan.borrowed = 0;
        loan.end_date = 0;
        loan.number_of_days = 0;
    }
    if loan.borrowed != 0 {
        return Err(EggsError::UserHasActiveLoan);
    }
    let mut state = ctx.state;
    let mut liquidation_data = ctx.liquidation_data;
    let mut escrow = ctx.escrow_token_amount;
    let forfeited = liquidate(&mut state, &mut liquidation_data, &mut escrow, now)?;
    let end_date = match checked_term_end(now, number_of_days) {
        Some(date) => date,
        None => {
            return Err(EggsError::ArithmeticOverflow);
        },
    };
    let sol_fee = get_interest_fee(sol, number_of_days)?;
    let fee_address_amount = protocol_cut_of(sol_fee);
    let user_eggs = sol_to_eggs_no_trade_ceil_with_account(
        &state,
        ctx.state_account_lamports,
        sol,
    )?;
    let new_user_borrow = lendable_of(sol);
    if ctx.authority_token_amount < user_eggs {
        return Err(EggsError::InsufficientCollateral);
    }
    let held = match escrow.checked_add(user_eggs) {
        Some(sum) => sum,
        None => {
            return Err(EggsError::ArithmeticOverflow);
        },
    };
    let mut daily = ctx.daily_loan_data;
    process_loan_creation(
        &mut state,
        &mut loan,
        &mut daily,
        end_date,
        user_eggs,
        new_user_borrow,
        number_of_days,
        ctx.authority,
    )?;
    if fee_address_amount <= MIN {
        return Err(EggsError::BelowMinimumValue);
    }
    if new_user_borrow < sol_fee {
        return Err(EggsError::FeeCalculationError);
    }
    let payout = new_user_borrow - sol_fee;
    let left = match ctx.state_account_lamports.checked_sub(fee_address_amount) {
        Some(rest) => match rest.checked_sub(payout) {
            Some(rest) => rest,
            None => {
                return Err(EggsError::InsufficientFunds);
            },
        },
        None => {
            return Err(EggsError::InsufficientFunds);
        },
    };
    safety_check_with_account(&mut state, left, held)?;
    ctx.state = state;
    ctx.state_account_lamports = left;
    ctx.escrow_token_amount = held;
    ctx.loan = loan;
    ctx.daily_loan_data = daily;
    ctx.liquidation_data = liquidation_data;
    let mut settlement = Settlement::none();
    settlement.paid_out = payout;
    settlement.fee_paid = fee_address_amount;
    settlement.escrowed = user_eggs;
    settlement.forfeited = forfeited;
    Ok(settlement)
}

/// The days a loan that ends on `end_date` still has to run, counted from
/// the first midnight after `now`.
pub open spec fn remaining_days(end_date: i64, now: i64) -> int {
    (end_date - next_midnight(now as int)) / 86400
}

/// The collateral a borrower has to add for a further loan that asks for
/// `required` tokens: what the collateral held, at 99 hundredths, does not
/// already cover beyond the token value `owed` of the present debt.
pub open spec fn collateral_shortfall(collateral: u64, owed: u64, required: u64) -> u64 {
    minus(required, minus(lendable(collateral as int) as u64, owed))
}

/// The outcome of borrowing `sol` lamports' worth more on the caller's loan
/// at time `now`.
///
/// The interest runs over the days the loan has left. The loan grows by 99
/// hundredths of `sol`; the caller adds the collateral that is short. The
/// caller receives the new part of the loan less the interest, the fee
/// address its cut of the interest, which has to exceed the minimum.
pub open spec fn borrowed_more(ctx: LoanOperation, now: i64, sol: u64) -> Result<
    (LoanOperation, Settlement),
    EggsError,
> {
    if sol == 0 {
        Err(EggsError::InvalidParameter)
    } else if ctx.loan.expired_at(now as int) {
        Err(EggsError::LoanExpired)
    } else {
        match sweep(ctx.state, ctx.liquidation_data, ctx.escrow_token_amount, now) {
            Err(e) => Err(e),
            Ok(swept) => {
                let days = remaining_days(ctx.loan.end_date, now);
                if !term_fits(now, 0) {
                    Err(EggsError::ArithmeticOverflow)
                } else if ctx.loan.end_date < next_midnight(now as int) {
                    Err(EggsError::LoanExpired)
                } else if days >= 366 {
                    Err(EggsError::LoanTooLong)
                } else {
                    match (
                        sol_to_eggs_no_trade_ceil(swept.state, ctx.state_account_lamports, sol),
                        sol_to_eggs_no_trade(
                            swept.state,
                            ctx.state_account_lamports,
                            ctx.loan.borrowed,
                        ),
                    ) {
                        (Ok(user_eggs), Ok(owed)) => {
                            let fee = interest(sol, days as u64);
                            let cut = protocol_cut(fee);
                            let loaned = lendable(sol as int);
                            let added = collateral_shortfall(ctx.loan.collateral, owed, user_eggs);
                            let lamports = ctx.state_account_lamports - cut - (loaned - fee);
                            if ctx.loan.borrowed + loaned > u64::MAX || ctx.loan.collateral + added
                                > u64::MAX {
                                Err(EggsError::ArithmeticOverflow)
                            } else if ctx.authority_token_amount < added {
                                Err(EggsError::InsufficientCollateral)
                            } else if swept.escrow + added > u64::MAX {
                                Err(EggsError::ArithmeticOverflow)
                            } else if ctx.daily_loan_data.date != ctx.loan.end_date {
                                Err(EggsError::InvalidParameter)
                            } else {
                                match loans_added(
                                    swept.state,
                                    ctx.daily_loan_data,
                                    loaned as u64,
                                    added,
                                ) {
                                    None => Err(EggsError::ArithmeticOverflow),
                                    Some((entered, daily)) => {
                                        if cut <= MIN {
                                            Err(EggsError::BelowMinimumValue)
                                        } else if loaned < fee {
                                            Err(EggsError::FeeCalculationError)
                                        } else if lamports < 0 {
                                            Err(EggsError::InsufficientFunds)
                                        } else {
                                            match checked_state(
                                                entered,
                                                lamports as u64,
                                                (swept.escrow + added) as u64,
                                            ) {
                                                Err(e) => Err(e),
                                                Ok(state) => Ok(
                                                    (
                                                        LoanOperation {
                                                            state,
                                                            state_account_lamports: lamports as u64,
                                                            escrow_token_amount: (swept.escrow
                                                                + added) as u64,
                                                            loan: Loan {
                                                                borrowed: (ctx.loan.borrowed
                                                                    + loaned) as u64,
                                                                collateral: (ctx.loan.collateral
                                                                    + added) as u64,
                                                                ..ctx.loan
                                                            },
                                                            daily_loan_data: daily,
                                                            liquidation_data: swept.daily,
                                                            ..ctx
                                                        },
                                                        Settlement {
                                                            paid_out: (loaned - fee) as u64,
                                                            fee_paid: cut as u64,
                                                            escrowed: added,
                                                            forfeited: swept.forfeited,
                                                            ..Settlement::nothing()
                                                        },
                                                    ),
                                                ),
                                            }
                                        }
                                    },
                                }
                            }
                        },
                        (Err(e), _) => Err(e),
                        (_, Err(e)) => Err(e),
                    }
                }
            },
        }
    }
}

/// Borrows `sol` lamports' worth more on the caller's loan, for the days it
/// has left.
///
/// Fails with `InvalidParameter` for no lamports, an empty backing, or a
/// `daily_loan_data` of another day than the loan ends on, with `LoanExpired`
/// where the loan has run out or ends before the next midnight, with
/// `LoanTooLong` where it has 366 days or more to run, with
/// `InsufficientCollateral` where the caller holds fewer tokens than are
/// short, with `BelowMinimumValue` where the cut of the fee address does not
/// exceed the minimum, with `InsufficientFunds` where the state account
/// cannot pay, and with whatever the sweep or the safety check fails with. A
/// failed call changes nothing; a successful one never lowers the recorded
/// price.
pub fn borrow_more(ctx: &mut LoanOperation, now: i64, sol: u64) -> (r: Result<
    Settlement,
    EggsError,
>)
    ensures
        match borrowed_more(*old(ctx), now, sol) {
            Ok((after, settlement)) => r == Ok::<Settlement, EggsError>(settlement) && *final(ctx)
                == after,
            Err(e) => r == Err::<Settlement, EggsError>(e) && *final(ctx) == *old(ctx),
        },
        r is Ok ==> final(ctx).state.last_price >= old(ctx).state.last_price,
        r matches Ok(settlement) ==> old(ctx).settles(*final(ctx), settlement),
        old(ctx).state.wf() ==> final(ctx).state.wf(),
{
    if sol == 0 {
        return Err(EggsError::InvalidParameter);
    }
    if is_loan_expired(&ctx.loan, now) {
        return Err(EggsError::LoanExpired);
    }
    let mut state = ctx.state;
    let mut liquidation_data = ctx.liquidation_data;
    let mut escrow = ctx.escrow_token_amount;
    let forfeited = liquidate(&mut state, &mut liquidation_data, &mut escrow, now)?;
    let user_borrowed = ctx.loan.borrowed;
    let user_collateral = ctx.loan.collateral;
    let user_end_date = ctx.loan.end_date;
    if now > i64::MAX - 86400 || now < i64::MIN + 86400 {
        return Err(EggsError::ArithmeticOverflow);
    }
    let today_midnight = get_midnight_timestamp(now);
    if user_end_date < today_midnight {
        return Err(EggsError::LoanExpired);
    }
    let new_borrow_length: i128 = ((user_end_date as i128) - (today_midnight as i128)) / 86400;
    if new_borrow_length >= 366 {
        return Err(EggsError::LoanTooLong);
    }
    let sol_fee = get_interest_fee(sol, new_borrow_length as u64)?;
    let user_eggs = sol_to_eggs_no_trade_ceil_with_account(
        &state,
        ctx.state_account_lamports,
        sol,
    )?;
    let user_borrowed_in_eggs = sol_to_eggs_no_trade_with_account(
        &state,
        ctx.state_account_lamports,
        user_borrowed,
    )?;
    let user_excess_in_eggs = lendable_of(user_collateral).saturating_sub(user_borrowed_in_eggs);
    let require_collateral_from_user = user_eggs.saturating_sub(user_excess_in_eggs);
    let fee_address_fee = protocol_cut_of(sol_fee);
    let new_user_borrow = lendable_of(sol);
    let new_user_borrow_total = user_borrowed.checked_add(new_user_borrow);
    let new_user_collateral_total = user_collateral.checked_add(require_collateral_from_user);
    if new_user_borrow_total.is_none() || new_user_collateral_total.is_none() {
        return Err(EggsError::ArithmeticOverflow);
    }
    if ctx.authority_token_amount < require_collateral_from_user {
        return Err(EggsError::InsufficientCollateral);
    }
    let held = match escrow.checked_add(require_collateral_from_user) {
        Some(sum) => sum,
        None => {
            return Err(EggsError::ArithmeticOverflow);
        },
    };
    if ctx.daily_loan_data.date != user_end_date {
        return Err(EggsError::InvalidParameter);
    }
    let mut daily = ctx.daily_loan_data;
    add_loans_by_date(&mut state, &mut daily, new_user_borrow, require_collateral_from_user)?;
    if fee_address_fee <= MIN {
        return Err(EggsError::BelowMinimumValue);
    }
    if new_user_borrow < sol_fee {
        return Err(EggsError::FeeCalculationError);
    }
    let payout = new_user_borrow - sol_fee;
    let left = match ctx.state_account_lamports.checked_sub(fee_address_fee) {
        Some(rest) => match rest.checked_sub(payout) {
            Some(rest) => rest,
            None => {
                return Err(EggsError::InsufficientFunds);
            },
        },
        None => {
            return Err(EggsError::InsufficientFunds);
        },
    };
    safety_check_with_account(&mut state, left, held)?;
    ctx.state = state;
    ctx.state_account_lamports = left;
    ctx.escrow_token_amount = held;
    ctx.loan.borrowed = new_user_borrow_total.unwrap();
    ctx.loan.collateral = new_user_collateral_total.unwrap();
    ctx.daily_loan_data = daily;
    ctx.liquidation_data = liquidation_data;
    let mut settlement = Settlement::none();
    settlement.paid_out = payout;
    settlement.fee_paid = fee_address_fee;
    settlement.escrowed = require_collateral_from_user;
    settlement.forfeited = forfeited;
    Ok(settlement)
}

} // verus!

//! Borrowing against the caller's own tokens.

use vstd::prelude::*;
use crate::calendar::{checked_term_end, get_midnight_timestamp, next_midnight, term_end, term_fits};
use crate::fees::{lendable, lendable_of, protocol_cut, protocol_cut_of};
use crate::mushi_program::constants::MIN;
use crate::mushi_program::context::{ACommon, ACommonExtLoan, ACommonExtSubLoan};
use crate::mushi_program::error::MushiProgramError;
use crate::mushi_program::ixs::buy_sell::{liquidate_accounts, swept_accounts};
use crate::mushi_program::state::{DailyStats, UserLoan};
use crate::mushi_program::transfers::Transfers;
use crate::mushi_program::utils::{add_loans_by_date, get_interest_fee, interest, loans_added, minus};

verus! {

/// The loan as an instruction that opens a loan finds it: cleared where it
/// has run out.
pub open spec fn settled(loan: UserLoan, now: i64) -> UserLoan {
    if loan.expired_at(now as int) {
        UserLoan::cleared()
    } else {
        loan
    }
}

/// The outcome of borrowing against `es_amount` base units' worth of the
/// caller's tokens for `number_of_days` days at time `now`.
///
/// The collateral is the token value of `es_amount`, rounded up; the caller
/// moves it into the vault. The loan is 99 hundredths of `es_amount`. The
/// caller receives the loan less the interest, the fee receiver its cut of
/// the interest, which has to exceed the minimum.
pub open spec fn borrowed(ctx: ACommonExtLoan, now: i64, number_of_days: u64, es_amount: u64) -> Result<
    (ACommonExtLoan, Transfers),
    MushiProgramError,
> {
    if number_of_days >= 366 {
        Err(MushiProgramError::InvalidNumberOfDays)
    } else if es_amount == 0 {
        Err(MushiProgramError::InvalidEclipseAmount)
    } else if settled(ctx.common.user_loan, now).borrowed != 0 {
        Err(MushiProgramError::InvalidLoanAmount)
    } else {
        match swept_accounts(ctx.common, now) {
            Err(e) => Err(e),
            Ok((swept, forfeited)) => {
                let fee = interest(es_amount, number_of_days);
                let cut = protocol_cut(fee);
                let loaned = lendable(es_amount as int);
                let vault = swept.quote_vault_amount - cut - (loaned - fee);
                let end_date = term_end(now as int, number_of_days as int);
                if !term_fits(now, number_of_days) {
                    Err(MushiProgramError::ArithmeticOverflow)
                } else {
                    match swept.collateral_quote(es_amount) {
                        Err(e) => Err(e),
                        Ok(user_mushi) => {
                            if swept.token_vault_amount + user_mushi > u64::MAX {
                                Err(MushiProgramError::ArithmeticOverflow)
                            } else if cut <= MIN || loaned < fee {
                                Err(MushiProgramError::InvalidFeeAmount)
                            } else if vault < 0 {
                                Err(MushiProgramError::InsufficientEclipseAmountOnVault)
                            } else if !ctx.daily_state_end_date.serves(end_date) {
                                Err(MushiProgramError::InvalidDailyStatsAccount)
                            } else {
                                match loans_added(
                                    swept.global_state,
                                    DailyStats { date: end_date as i64, ..ctx.daily_state_end_date },
                                    loaned as u64,
                                    user_mushi,
                                ) {
                                    None => Err(MushiProgramError::ArithmeticOverflow),
                                    Some((global, daily)) => {
                                        let entered = ACommon {
                                            global_state: global,
                                            user_loan: UserLoan {
                                                collateral: user_mushi,
                                                borrowed: loaned as u64,
                                                end_date: end_date as i64,
                                                number_of_days,
                                            },
                                            token_vault_amount: (swept.token_vault_amount
                                                + user_mushi) as u64,
                                            quote_vault_amount: vault as u64,
                                            ..swept
                                        };
                                        match entered.checked(0, true, 0) {
                                            Err(e) => Err(e),
                                            Ok(checked) => Ok(
                                                (
                                                    ACommonExtLoan {
                                                        common: ACommon {
                                                            global_state: checked,
                                                            ..entered
                                                        },
                                                        daily_state_end_date: daily,
                                                    },
                                                    Transfers {
                                                        quote_to_user: (loaned - fee) as u64,
                                                        fee_from_vault: cut as u64,
                                                        tokens_to_vault: user_mushi,
                                                        burned_from_vault: forfeited,
                                                        ..Transfers::nothing()
                                                    },
                                                ),
                                            ),
                                        }
                                    },
                                }
                            }
                        },
                    }
                }
            },
        }
    }
}

/// Borrows against the caller's own tokens: `es_amount` base units' worth
/// of them become the collateral of a loan of `number_of_days` days.
///
/// Fails with `InvalidNumberOfDays` for 366 days or more, with
/// `InvalidEclipseAmount` for no amount, with `InvalidLoanAmount` where the
/// caller has a loan that has not run out, with `InvalidInput` where the
/// backing is empty, with `InvalidFeeAmount` where the cut of the fee
/// receiver does not exceed the minimum, with
/// `InsufficientEclipseAmountOnVault` where the vault cannot pay, with
/// `InvalidDailyStatsAccount` where the bucket belongs to another day than
/// the loan ends on, and with whatever the sweep or the safety check fails
/// with. A failed call changes nothing; a successful one never lowers the
/// recorded price.
pub fn borrow(ctx: &mut ACommonExtLoan, now: i64, number_of_days: u64, es_amount: u64) -> (r: Result<
    Transfers,
    MushiProgramError,
>)
    ensures
        match borrowed(*old(ctx), now, number_of_days, es_amount) {
            Ok((after, transfers)) => r == Ok::<Transfers, MushiProgramError>(transfers)
                && *final(ctx) == after,
            Err(e) => r == Err::<Transfers, MushiProgramError>(e) && *final(ctx) == *old(ctx),
        },
        r is Ok ==> final(ctx).common.global_state.last_price
            >= old(ctx).common.global_state.last_price,
        r matches Ok(transfers) ==> old(ctx).common.settles(final(ctx).common, transfers),
        old(ctx).common.global_state.wf() ==> final(ctx).common.global_state.wf(),
        final(ctx).common.main_state == old(ctx).common.main_state,
{
    if number_of_days >= 366 {
        return Err(MushiProgramError::InvalidNumberOfDays);
    }
    if es_amount == 0 {
        return Err(MushiProgramError::InvalidEclipseAmount);
    }
    let mut common = ctx.common;
    if common.is_loan_expired(now) {
        common.user_loan = UserLoan::empty();
    }
    if common.user_loan.borrowed != 0 {
        return Err(MushiProgramError::InvalidLoanAmount);
    }
    let forfeited = liquidate_accounts(&mut common, now)?;
    let end_date = match checked_term_end(now, number_of_days) {
        Some(date) => date,
        None => {
            return Err(MushiProgramError::ArithmeticOverflow);
        },
    };
    let user_mushi = common.eclipse_to_mushi_no_trade_ceil(es_amount)?;
    let eclipse_fee = get_interest_fee(es_amount, number_of_days);
    let fee_address_fee = protocol_cut_of(eclipse_fee);
    let new_user_borrow = lendable_of(es_amount);
    let held = match common.token_vault_amount.checked_add(user_mushi) {
        Some(sum) => sum,
        None => {
            return Err(MushiProgramError::ArithmeticOverflow);
        },
    };
    if fee_address_fee <= MIN || new_user_borrow < eclipse_fee {
        return Err(MushiProgramError::InvalidFeeAmount);
    }
    let payout = new_user_borrow - eclipse_fee;
    let vault = match common.quote_vault_amount.checked_sub(fee_address_fee) {
        Some(rest) => match rest.checked_sub(payout) {
            Some(rest) => rest,
            None => {
                return Err(MushiProgramError::InsufficientEclipseAmountOnVault);
            },
        },
        None => {
            return Err(MushiProgramError::InsufficientEclipseAmountOnVault);
        },
    };
    let mut daily = ctx.daily_state_end_date;
    if daily.date != end_date && !(daily.borrowed == 0 && daily.collateral == 0) {
        return Err(MushiProgramError::InvalidDailyStatsAccount);
    }
    daily.date = end_date;
    add_loans_by_date(&mut common.global_state, &mut daily, new_user_borrow, user_mushi)?;
    common.user_loan.collateral = user_mushi;
    common.user_loan.borrowed = new_user_borrow;
    common.user_loan.end_date = end_date;
    common.user_loan.number_of_days = number_of_days;
    common.token_vault_amount = held;
    common.quote_vault_amount = vault;
    common.safety_check(0, true)?;
    ctx.common = common;
    ctx.daily_state_end_date = daily;
    let mut transfers = Transfers::none();
    transfers.quote_to_user = payout;
    transfers.fee_from_vault = fee_address_fee;
    transfers.tokens_to_vault = user_mushi;
    transfers.burned_from_vault = forfeited;
    Ok(transfers)
}

/// The days a loan that ends on `end_date` still has to run, counted from
/// the first midnight after `now`.
pub open spec fn remaining_days(end_date: i64, now: i64) -> int {
    (end_date - next_midnight(now as int)) / 86400
}

/// The outcome of borrowing `es_amount` base units' worth more on the
/// caller's loan at time `now`.
///
/// The interest runs over the days the loan has left, which become its
/// term. The loan grows by 99 hundredths of `es_amount`. The collateral
/// held, at 99 hundredths, has to cover the token value of the present
/// debt; what it holds beyond that counts towards the collateral of the new
/// part, and the caller adds the rest. The caller receives the new part of
/// the loan less the interest, the fee receiver its cut of the interest,
/// which has to exceed the minimum.
pub open spec fn borrowed_more(ctx: ACommonExtSubLoan, now: i64, es_amount: u64) -> Result<
    (ACommonExtSubLoan, Transfers),
    MushiProgramError,
> {
    let loan = ctx.common.user_loan;
    if loan.expired_at(now as int) {
        Err(MushiProgramError::LoanExpired)
    } else if es_amount == 0 {
        Err(MushiProgramError::InvalidEclipseAmount)
    } else {
        match swept_accounts(ctx.common, now) {
            Err(e) => Err(e),
            Ok((swept, forfeited)) => {
                let days = remaining_days(loan.end_date, now);
                if !term_fits(now, 0) {
                    Err(MushiProgramError::ArithmeticOverflow)
                } else if loan.end_date < next_midnight(now as int) {
                    Err(MushiProgramError::LoanExpired)
                } else if days >= 366 {
                    Err(MushiProgramError::InvalidNumberOfDays)
                } else {
                    match (swept.collateral_quote(es_amount), swept.value_quote(loan.borrowed)) {
                        (Ok(user_mushi), Ok(owed)) => {
                            let fee = interest(es_amount, days as u64);
                            let cut = protocol_cut(fee);
                            let loaned = lendable(es_amount as int);
                            let excess = lendable(loan.collateral as int) - owed;
                            let added = minus(user_mushi, excess as u64);
                            let vault = swept.quote_vault_amount - cut - (loaned - fee);
                            if excess < 0 {
                                Err(MushiProgramError::InvalidCollateralAmount)
                            } else if loan.borrowed + loaned > u64::MAX || loan.collateral + added
                                > u64::MAX || swept.token_vault_amount + added > u64::MAX {
                                Err(MushiProgramError::ArithmeticOverflow)
                            } else if cut <= MIN || loaned < fee {
                                Err(MushiProgramError::InvalidFeeAmount)
                            } else if vault < 0 {
                                Err(MushiProgramError::InsufficientEclipseAmountOnVault)
                            } else if ctx.daily_state_old_end_date.date != loan.end_date {
                                Err(MushiProgramError::InvalidDailyStatsAccount)
                            } else {
                                match loans_added(
                                    swept.global_state,
                                    ctx.daily_state_old_end_date,
                                    loaned as u64,
                                    added,
                                ) {
                                    None => Err(MushiProgramError::ArithmeticOverflow),
                                    Some((global, daily)) => {
                                        let entered = ACommon {
                                            global_state: global,
                                            user_loan: UserLoan {
                                                collateral: (loan.collateral + added) as u64,
                                                borrowed: (loan.borrowed + loaned) as u64,
                                                end_date: loan.end_date,
                                                number_of_days: days as u64,
                                            },
                                            token_vault_amount: (swept.token_vault_amount
                                                + added) as u64,
                                            quote_vault_amount: vault as u64,
                                            ..swept
                                        };
                                        match entered.checked(0, true, 0) {
                                            Err(e) => Err(e),
                                            Ok(checked) => Ok(
                                                (
                                                    ACommonExtSubLoan {
                                                        common: ACommon {
                                                            global_state: checked,
                                                            ..entered
                                                        },
                                                        daily_state_old_end_date: daily,
                                                    },
                                                    Transfers {
                                                        quote_to_user: (loaned - fee) as u64,
                                                        fee_from_vault: cut as u64,
                                                        tokens_to_vault: added,
                                                        burned_from_vault: forfeited,
                                                        ..Transfers::nothing()
                                                    },
                                                ),
                                            ),
                                        }
                                    },
                                }
                            }
                        },
                        (Err(e), _) => Err(e),
                        (_, Err(e)) => Err(e),
                    }
                }
            },
        }
    }
}

/// Borrows `es_amount` base units' worth more on the caller's loan, for the
/// days it has left.
///
/// Fails with `LoanExpired` where the loan has run out or ends before the
/// next midnight, with `InvalidEclipseAmount` for no amount, with
/// `InvalidNumberOfDays` where the loan has 366 days or more to run, with
/// `InvalidInput` where the backing is empty, with `InvalidCollateralAmount`
/// where the collateral held no longer covers the present debt, with
/// `InvalidFeeAmount` where the cut of the fee receiver does not exceed the
/// minimum, with `InsufficientEclipseAmountOnVault` where the vault cannot
/// pay, with `InvalidDailyStatsAccount` where the bucket is not that of the
/// loan, and with whatever the sweep or the safety check fails with. A
/// failed call changes nothing; a successful one never lowers the recorded
/// price.
pub fn borrow_more(ctx: &mut ACommonExtSubLoan, now: i64, es_amount: u64) -> (r: Result<
    Transfers,
    MushiProgramError,
>)
    ensures
        match borrowed_more(*old(ctx), now, es_amount) {
            Ok((after, transfers)) => r == Ok::<Transfers, MushiProgramError>(transfers)
                && *final(ctx) == after,
            Err(e) => r == Err::<Transfers, MushiProgramError>(e) && *final(ctx) == *old(ctx),
        },
        r is Ok ==> final(ctx).common.global_state.last_price
            >= old(ctx).common.global_state.last_price,
        r matches Ok(transfers) ==> old(ctx).common.settles(final(ctx).common, transfers),
        old(ctx).common.global_state.wf() ==> final(ctx).common.global_state.wf(),
        final(ctx).common.main_state == old(ctx).common.main_state,
{
    let mut common = ctx.common;
    if common.is_loan_expired(now) {
        return Err(MushiProgramError::LoanExpired);
    }
    if es_amount == 0 {
        return Err(MushiProgramError::InvalidEclipseAmount);
    }
    let forfeited = liquidate_accounts(&mut common, now)?;
    let user_borrowed = common.user_loan.borrowed;
    let user_collateral = common.user_loan.collateral;
    let user_end_date = common.user_loan.end_date;
    if now > i64::MAX - 86400 || now < i64::MIN + 86400 {
        return Err(MushiProgramError::ArithmeticOverflow);
    }
    let today_midnight = get_midnight_timestamp(now);
    if user_end_date < today_midnight {
        return Err(MushiProgramError::LoanExpired);
    }
    let new_borrow_length: i128 = ((user_end_date as i128) - (today_midnight as i128)) / 86400;
    if new_borrow_length >= 366 {
        return Err(MushiProgramError::InvalidNumberOfDays);
    }
    let new_borrow_length: u64 = new_borrow_length as u64;
    let user_mushi = common.eclipse_to_mushi_no_trade_ceil(es_amount)?;
    let user_borrowed_in_mushi = common.eclipse_to_mushi_no_trade(user_borrowed)?;
    let eclipse_fee = get_interest_fee(es_amount, new_borrow_length);
    let fee_address_fee = protocol_cut_of(eclipse_fee);
    let new_user_borrow = lendable_of(es_amount);
    let user_excess_in_mushi = match lendable_of(user_collateral).checked_sub(
        user_borrowed_in_mushi,
    ) {
        Some(excess) => excess,
        None => {
            return Err(MushiProgramError::InvalidCollateralAmount);
        },
    };
    let require_collateral_from_user = user_mushi.saturating_sub(user_excess_in_mushi);
    let new_user_borrow_total = user_borrowed.checked_add(new_user_borrow);
    let new_user_collateral_total = user_collateral.checked_add(require_collateral_from_user);
    let held = common.token_vault_amount.checked_add(require_collateral_from_user);
    if new_user_borrow_total.is_none() || new_user_collateral_total.is_none() || held.is_none() {
        return Err(MushiProgramError::ArithmeticOverflow);
    }
    if fee_address_fee <= MIN || new_user_borrow < eclipse_fee {
        return Err(MushiProgramError::InvalidFeeAmount);
    }
    let payout = new_user_borrow - eclipse_fee;
    let vault = match common.quote_vault_amount.checked_sub(fee_address_fee) {
        Some(rest) => match rest.checked_sub(payout) {
            Some(rest) => rest,
            None => {
                return Err(MushiProgramError::InsufficientEclipseAmountOnVault);
            },
        },
        None => {
            return Err(MushiProgramError::InsufficientEclipseAmountOnVault);
        },
    };
    let mut daily = ctx.daily_state_old_end_date;
    if daily.date != user_end_date {
        return Err(MushiProgramError::InvalidDailyStatsAccount);
    }
    add_loans_by_date(
        &mut common.global_state,
        &mut daily,
        new_user_borrow,
        require_collateral_from_user,
    )?;
    common.user_loan.borrowed = new_user_borrow_total.unwrap();
    common.user_loan.collateral = new_user_collateral_total.unwrap();
    common.user_loan.number_of_days = new_borrow_length;
    common.token_vault_amount = held.unwrap();
    common.quote_vault_amount = vault;
    common.safety_check(0, true)?;
    ctx.common = common;
    ctx.daily_state_old_end_date = daily;
    let mut transfers = Transfers::none();
    transfers.quote_to_user = payout;
    transfers.fee_from_vault = fee_address_fee;
    transfers.tokens_to_vault = require_collateral_from_user;
    transfers.burned_from_vault = forfeited;
    Ok(transfers)
}

} // verus!

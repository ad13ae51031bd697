//! Prolonging a loan.

use vstd::prelude::*;
use crate::fees::{protocol_cut, protocol_cut_of};
use crate::mushi_program::constants::MIN;
use crate::mushi_program::context::{ACommon, ACommonExtExtendLoan};
use crate::mushi_program::error::MushiProgramError;
use crate::mushi_program::state::{DailyStats, UserLoan};
use crate::mushi_program::transfers::Transfers;
use crate::mushi_program::utils::{
    add_loans_by_date, get_interest_fee, interest, loans_added, loans_removed, sub_loans_by_date,
};

verus! {

/// The outcome of prolonging the caller's loan by `number_of_days` days at
/// time `now`, for which the caller hands over `payment` base units.
///
/// The payment has to be the interest on the debt for the added days. The
/// loan moves to the bucket of its new last day, which may lie no more than
/// a year ahead. The fee receiver gets its cut of the interest, which has to
/// exceed the minimum.
pub open spec fn loan_extended(
    ctx: ACommonExtExtendLoan,
    now: i64,
    number_of_days: u64,
    payment: u64,
) -> Result<(ACommonExtExtendLoan, Transfers), MushiProgramError> {
    let common = ctx.common;
    let loan = common.user_loan;
    let fee = interest(loan.borrowed, number_of_days);
    let cut = protocol_cut(fee);
    let new_end_date = loan.end_date + number_of_days * 86400;
    let vault = common.quote_vault_amount + fee - cut;
    if number_of_days >= 366 {
        Err(MushiProgramError::InvalidNumberOfDays)
    } else if number_of_days == 0 {
        Err(MushiProgramError::InvalidInput)
    } else if loan.expired_at(now as int) {
        Err(MushiProgramError::LoanExpired)
    } else if payment != fee || cut <= MIN {
        Err(MushiProgramError::InvalidFeeAmount)
    } else if new_end_date > i64::MAX || loan.number_of_days + number_of_days > u64::MAX || vault
        > u64::MAX {
        Err(MushiProgramError::ArithmeticOverflow)
    } else if ctx.daily_state_old_end_date.date != loan.end_date
        || !ctx.daily_state_new_end_date.serves(new_end_date) {
        Err(MushiProgramError::InvalidDailyStatsAccount)
    } else {
        match loans_removed(
            common.global_state,
            ctx.daily_state_old_end_date,
            loan.borrowed,
            loan.collateral,
        ) {
            None => Err(MushiProgramError::ArithmeticOverflow),
            Some((removed, old_daily)) => match loans_added(
                removed,
                DailyStats { date: new_end_date as i64, ..ctx.daily_state_new_end_date },
                loan.borrowed,
                loan.collateral,
            ) {
                None => Err(MushiProgramError::ArithmeticOverflow),
                Some((global, new_daily)) => {
                    let extended = ACommon {
                        global_state: global,
                        user_loan: UserLoan {
                            end_date: new_end_date as i64,
                            number_of_days: (loan.number_of_days + number_of_days) as u64,
                            ..loan
                        },
                        quote_vault_amount: vault as u64,
                        ..common
                    };
                    if (new_end_date - now) / 86400 >= 366 {
                        Err(MushiProgramError::InvalidNumberOfDays)
                    } else {
                        match extended.checked(0, true, 0) {
                            Err(e) => Err(e),
                            Ok(checked) => Ok(
                                (
                                    ACommonExtExtendLoan {
                                        common: ACommon { global_state: checked, ..extended },
                                        daily_state_old_end_date: old_daily,
                                        daily_state_new_end_date: new_daily,
                                    },
                                    Transfers {
                                        quote_to_vault: payment,
                                        fee_from_vault: cut as u64,
                                        ..Transfers::nothing()
                                    },
                                ),
                            ),
                        }
                    }
                },
            },
        }
    }
}

/// Prolongs the caller's loan by `number_of_days` days, for which the
/// caller hands over `payment` base units.
///
/// Fails with `InvalidNumberOfDays` for 366 days or more or where the loan
/// would end a year or more ahead, with `InvalidInput` for no days, with
/// `LoanExpired` where the loan has run out, with `InvalidFeeAmount` unless
/// `payment` is the interest due and the cut of the fee receiver exceeds the
/// minimum, with `InvalidDailyStatsAccount` for a bucket of the wrong day,
/// and with whatever the safety check fails with. A failed call changes
/// nothing; a successful one never lowers the recorded price.
pub fn extend_loan(ctx: &mut ACommonExtExtendLoan, now: i64, number_of_days: u64, payment: u64) -> (r:
    Result<Transfers, MushiProgramError>)
    ensures
        match loan_extended(*old(ctx), now, number_of_days, payment) {
            Ok((after, transfers)) => r == Ok::<Transfers, MushiProgramError>(transfers)
                && *final(ctx) == after,
            Err(e) => r == Err::<Transfers, MushiProgramError>(e) && *final(ctx) == *old(ctx),
        },
        r is Ok ==> final(ctx).common.global_state.last_price
            >= old(ctx).common.global_state.last_price,
        r matches Ok(transfers) ==> old(ctx).common.settles(final(ctx).common, transfers),
        old(ctx).common.global_state.wf() ==> final(ctx).common.global_state.wf(),
        final(ctx).common.main_state == old(ctx).common.main_state,
{
    if number_of_days >= 366 {
        return Err(MushiProgramError::InvalidNumberOfDays);
    }
    if number_of_days == 0 {
        return Err(MushiProgramError::InvalidInput);
    }
    let mut common = ctx.common;
    let old_end_date = common.user_loan.end_date;
    let borrowed = common.user_loan.borrowed;
    let collateral = common.user_loan.collateral;
    let loan_fee = get_interest_fee(borrowed, number_of_days);
    if common.is_loan_expired(now) {
        return Err(MushiProgramError::LoanExpired);
    }
    let fee_address_fee = protocol_cut_of(loan_fee);
    if payment != loan_fee || fee_address_fee <= MIN {
        return Err(MushiProgramError::InvalidFeeAmount);
    }
    let wide_end: i128 = (old_end_date as i128) + (number_of_days as i128) * 86400;
    let total_days = common.user_loan.number_of_days.checked_add(number_of_days);
    let vault: u128 = (common.quote_vault_amount as u128) + (loan_fee as u128) - (
    fee_address_fee as u128);
    if wide_end > i64::MAX as i128 || total_days.is_none() || vault > u64::MAX as u128 {
        return Err(MushiProgramError::ArithmeticOverflow);
    }
    let new_end_date: i64 = wide_end as i64;
    let mut old_daily = ctx.daily_state_old_end_date;
    let mut new_daily = ctx.daily_state_new_end_date;
    if old_daily.date != old_end_date || (new_daily.date != new_end_date && !(new_daily.borrowed
        == 0 && new_daily.collateral == 0)) {
        return Err(MushiProgramError::InvalidDailyStatsAccount);
    }
    new_daily.date = new_end_date;
    sub_loans_by_date(&mut common.global_state, &mut old_daily, borrowed, collateral)?;
    add_loans_by_date(&mut common.global_state, &mut new_daily, borrowed, collateral)?;
    common.user_loan.end_date = new_end_date;
    common.user_loan.number_of_days = total_days.unwrap();
    common.quote_vault_amount = vault as u64;
    let ahead: i128 = ((new_end_date as i128) - (now as i128)) / 86400;
    if ahead >= 366 {
        return Err(MushiProgramError::InvalidNumberOfDays);
    }
    common.safety_check(0, true)?;
    ctx.common = common;
    ctx.daily_state_old_end_date = old_daily;
    ctx.daily_state_new_end_date = new_daily;
    let mut transfers = Transfers::none();
    transfers.quote_to_vault = payment;
    transfers.fee_from_vault = fee_address_fee;
    Ok(transfers)
}

} // verus!

//! Repaying part of a loan.

use vstd::prelude::*;
use crate::mushi_program::context::{ACommon, ACommonExtSubLoan};
use crate::mushi_program::error::MushiProgramError;
use crate::mushi_program::state::UserLoan;
use crate::mushi_program::transfers::Transfers;
use crate::mushi_program::utils::{loans_removed, sub_loans_by_date};

verus! {

/// The outcome of repaying `es_amount` base units of the caller's loan at
/// time `now`. The amount has to be above zero and below the debt.
pub open spec fn repaid(ctx: ACommonExtSubLoan, now: i64, es_amount: u64) -> Result<
    (ACommonExtSubLoan, Transfers),
    MushiProgramError,
> {
    let common = ctx.common;
    let loan = common.user_loan;
    if loan.borrowed <= es_amount || es_amount == 0 {
        Err(MushiProgramError::InvalidSolAmount)
    } else if loan.expired_at(now as int) {
        Err(MushiProgramError::LoanExpired)
    } else if ctx.daily_state_old_end_date.date != loan.end_date {
        Err(MushiProgramError::InvalidDailyStatsAccount)
    } else if common.quote_vault_amount + es_amount > u64::MAX {
        Err(MushiProgramError::ArithmeticOverflow)
    } else {
        match loans_removed(common.global_state, ctx.daily_state_old_end_date, es_amount, 0) {
            None => Err(MushiProgramError::ArithmeticOverflow),
            Some((global, daily)) => {
                let paid = ACommon {
                    global_state: global,
                    user_loan: UserLoan { borrowed: (loan.borrowed - es_amount) as u64, ..loan },
                    quote_vault_amount: (common.quote_vault_amount + es_amount) as u64,
                    ..common
                };
                match paid.checked(0, true, 0) {
                    Err(e) => Err(e),
                    Ok(checked) => Ok(
                        (
                            ACommonExtSubLoan {
                                common: ACommon { global_state: checked, ..paid },
                                daily_state_old_end_date: daily,
                            },
                            Transfers { quote_to_vault: es_amount, ..Transfers::nothing() },
                        ),
                    ),
                }
            },
        }
    }
}

/// Repays `es_amount` base units of the caller's loan.
///
/// Fails with `InvalidSolAmount` unless the amount is above zero and below
/// the debt, with `LoanExpired` where the loan has run out, with
/// `InvalidDailyStatsAccount` where the bucket is not that of the loan, and
/// with whatever the safety check fails with. A failed call changes nothing;
/// a successful one never lowers the recorded price.
pub fn repay(ctx: &mut ACommonExtSubLoan, now: i64, es_amount: u64) -> (r: Result<
    Transfers,
    MushiProgramError,
>)
    ensures
        match repaid(*old(ctx), now, es_amount) {
            Ok((after, transfers)) => r == Ok::<Transfers, MushiProgramError>(transfers)
                && *final(ctx) == after,
            Err(e) => r == Err::<Transfers, MushiProgramError>(e) && *final(ctx) == *old(ctx),
        },
        r is Ok ==> final(ctx).common.global_state.last_price
            >= old(ctx).common.global_state.last_price,
        r matches Ok(transfers) ==> old(ctx).common.settles(final(ctx).common, transfers),
        old(ctx).common.global_state.wf() ==> final(ctx).common.global_state.wf(),
        final(ctx).common.main_state == old(ctx).common.main_state,
{
    let mut common = ctx.common;
    let borrowed = common.user_loan.borrowed;
    if borrowed <= es_amount || es_amount == 0 {
        return Err(MushiProgramError::InvalidSolAmount);
    }
    if common.is_loan_expired(now) {
        return Err(MushiProgramError::LoanExpired);
    }
    let mut daily = ctx.daily_state_old_end_date;
    if daily.date != common.user_loan.end_date {
        return Err(MushiProgramError::InvalidDailyStatsAccount);
    }
    let vault = match common.quote_vault_amount.checked_add(es_amount) {
        Some(sum) => sum,
        None => {
            return Err(MushiProgramError::ArithmeticOverflow);
        },
    };
    sub_loans_by_date(&mut common.global_state, &mut daily, es_amount, 0)?;
    common.user_loan.borrowed = borrowed - es_amount;
    common.quote_vault_amount = vault;
    common.safety_check(0, true)?;
    ctx.common = common;
    ctx.daily_state_old_end_date = daily;
    let mut transfers = Transfers::none();
    transfers.quote_to_vault = es_amount;
    Ok(transfers)
}

} // verus!

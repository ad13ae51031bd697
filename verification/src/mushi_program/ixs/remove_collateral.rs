//! Releasing collateral of a loan.

use vstd::prelude::*;
use crate::fees::{lendable, lendable_of};
use crate::mushi_program::context::{ACommon, ACommonExtSubLoan};
use crate::mushi_program::error::MushiProgramError;
use crate::mushi_program::ixs::buy_sell::{liquidate_accounts, swept_accounts};
use crate::mushi_program::state::UserLoan;
use crate::mushi_program::transfers::Transfers;
use crate::mushi_program::utils::{loans_removed, sub_loans_by_date};

verus! {

/// The outcome of releasing `amount` tokens of the collateral of the
/// caller's loan at time `now`.
///
/// What stays in the vault for the loan, sold at the current backing, has
/// to cover the debt at 99 hundredths.
pub open spec fn collateral_removed(ctx: ACommonExtSubLoan, now: i64, amount: u64) -> Result<
    (ACommonExtSubLoan, Transfers),
    MushiProgramError,
> {
    let loan = ctx.common.user_loan;
    if loan.expired_at(now as int) {
        Err(MushiProgramError::LoanExpired)
    } else {
        match swept_accounts(ctx.common, now) {
            Err(e) => Err(e),
            Ok((swept, forfeited)) => {
                if loan.collateral < amount {
                    Err(MushiProgramError::RemoveCollateralFailed)
                } else {
                    match swept.sell_quote((loan.collateral - amount) as u64) {
                        Err(e) => Err(e),
                        Ok(value) => {
                            if loan.borrowed > lendable(value as int) {
                                Err(MushiProgramError::RemoveCollateralFailed)
                            } else if ctx.daily_state_old_end_date.date != loan.end_date {
                                Err(MushiProgramError::InvalidDailyStatsAccount)
                            } else if swept.token_vault_amount < amount {
                                Err(MushiProgramError::SafetyCheckCollateralFailed)
                            } else {
                                match loans_removed(
                                    swept.global_state,
                                    ctx.daily_state_old_end_date,
                                    0,
                                    amount,
                                ) {
                                    None => Err(MushiProgramError::ArithmeticOverflow),
                                    Some((global, daily)) => {
                                        let released = ACommon {
                                            global_state: global,
                                            user_loan: UserLoan {
                                                collateral: (loan.collateral - amount) as u64,
                                                ..loan
                                            },
                                            token_vault_amount: (swept.token_vault_amount
                                                - amount) as u64,
                                            ..swept
                                        };
                                        match released.checked(0, true, 0) {
                                            Err(e) => Err(e),
                                            Ok(checked) => Ok(
                                                (
                                                    ACommonExtSubLoan {
                                                        common: ACommon {
                                                            global_state: checked,
                                                            ..released
                                                        },
                                                        daily_state_old_end_date: daily,
                                                    },
                                                    Transfers {
                                                        tokens_to_user: amount,
                                                        burned_from_vault: forfeited,
                                                        ..Transfers::nothing()
                                                    },
                                                ),
                                            ),
                                        }
                                    },
                                }
                            }
                        },
                    }
                }
            },
        }
    }
}

/// Releases `amount` tokens of the collateral of the caller's loan.
///
/// Fails with `LoanExpired` where the loan has run out, with
/// `RemoveCollateralFailed` where the loan holds fewer tokens or where the
/// rest would no longer cover the debt, with `InvalidInput` where no token
/// is outstanding, with `InvalidDailyStatsAccount` where the bucket is not
/// that of the loan, with `SafetyCheckCollateralFailed` where the vault
/// cannot hand the tokens out, and with whatever the sweep or the safety
/// check fails with. A failed call changes nothing; a successful one never
/// lowers the recorded price.
pub fn remove_collateral(ctx: &mut ACommonExtSubLoan, now: i64, amount: u64) -> (r: Result<
    Transfers,
    MushiProgramError,
>)
    ensures
        match collateral_removed(*old(ctx), now, amount) {
            Ok((after, transfers)) => r == Ok::<Transfers, MushiProgramError>(transfers)
                && *final(ctx) == after,
            Err(e) => r == Err::<Transfers, MushiProgramError>(e) && *final(ctx) == *old(ctx),
        },
        r is Ok ==> final(ctx).common.global_state.last_price
            >= old(ctx).common.global_state.last_price,
        r matches Ok(transfers) ==> old(ctx).common.settles(final(ctx).common, transfers),
        old(ctx).common.global_state.wf() ==> final(ctx).common.global_state.wf(),
        final(ctx).common.main_state == old(ctx).common.main_state,
{
    let mut common = ctx.common;
    if common.is_loan_expired(now) {
        return Err(MushiProgramError::LoanExpired);
    }
    let forfeited = liquidate_accounts(&mut common, now)?;
    let collateral = common.user_loan.collateral;
    if collateral < amount {
        return Err(MushiProgramError::RemoveCollateralFailed);
    }
    let value = common.mushi_to_eclipse(collateral - amount)?;
    if common.user_loan.borrowed > lendable_of(value) {
        return Err(MushiProgramError::RemoveCollateralFailed);
    }
    let mut daily = ctx.daily_state_old_end_date;
    if daily.date != common.user_loan.end_date {
        return Err(MushiProgramError::InvalidDailyStatsAccount);
    }
    if common.token_vault_amount < amount {
        return Err(MushiProgramError::SafetyCheckCollateralFailed);
    }
    sub_loans_by_date(&mut common.global_state, &mut daily, 0, amount)?;
    common.user_loan.collateral = collateral - amount;
    common.token_vault_amount = common.token_vault_amount - amount;
    common.safety_check(0, true)?;
    ctx.common = common;
    ctx.daily_state_old_end_date = daily;
    let mut transfers = Transfers::none();
    transfers.tokens_to_user = amount;
    transfers.burned_from_vault = forfeited;
    Ok(transfers)
}

} // verus!

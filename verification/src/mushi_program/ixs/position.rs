//! Closing a loan.

use vstd::prelude::*;
use crate::fees::{buffer, buffer_of, lendable, lendable_of, protocol_cut, protocol_cut_of};
use crate::mushi_program::constants::MIN;
use crate::mushi_program::context::{ACommon, ACommonExtSubLoan};
use crate::mushi_program::error::MushiProgramError;
use crate::mushi_program::ixs::buy_sell::{liquidate_accounts, swept_accounts};
use crate::mushi_program::state::{GlobalStats, UserLoan};
use crate::mushi_program::transfers::Transfers;
use crate::mushi_program::utils::{loans_removed, sub_loans_by_date};

verus! {

/// The outcome of closing the caller's loan at time `now` by repaying
/// `es_amount` base units, which has to be the whole debt. The collateral
/// goes back to the caller.
pub open spec fn position_closed(ctx: ACommonExtSubLoan, now: i64, es_amount: u64) -> Result<
    (ACommonExtSubLoan, Transfers),
    MushiProgramError,
> {
    let common = ctx.common;
    let loan = common.user_loan;
    if loan.expired_at(now as int) {
        Err(MushiProgramError::LoanExpired)
    } else if loan.borrowed != es_amount {
        Err(MushiProgramError::InvalidLoanAmount)
    } else if ctx.daily_state_old_end_date.date != loan.end_date {
        Err(MushiProgramError::InvalidDailyStatsAccount)
    } else if common.quote_vault_amount + es_amount > u64::MAX {
        Err(MushiProgramError::ArithmeticOverflow)
    } else if common.token_vault_amount < loan.collateral {
        Err(MushiProgramError::SafetyCheckCollateralFailed)
    } else {
        match loans_removed(
            common.global_state,
            ctx.daily_state_old_end_date,
            loan.borrowed,
            loan.collateral,
        ) {
            None => Err(MushiProgramError::ArithmeticOverflow),
            Some((global, daily)) => {
                let closed = ACommon {
                    global_state: global,
                    user_loan: UserLoan::cleared(),
                    token_vault_amount: (common.token_vault_amount - loan.collateral) as u64,
                    quote_vault_amount: (common.quote_vault_amount + es_amount) as u64,
                    ..common
                };
                match closed.checked(0, true, 0) {
                    Err(e) => Err(e),
                    Ok(checked) => Ok(
                        (
                            ACommonExtSubLoan {
                                common: ACommon { global_state: checked, ..closed },
                                daily_state_old_end_date: daily,
                            },
                            Transfers {
                                quote_to_vault: es_amount,
                                tokens_to_user: loan.collateral,
                                ..Transfers::nothing()
                            },
                        ),
                    ),
                }
            },
        }
    }
}

/// Closes the caller's loan by repaying the whole debt and hands the
/// collateral back.
///
/// Fails with `LoanExpired` where the loan has run out, with
/// `InvalidLoanAmount` unless `es_amount` is the debt, with
/// `InvalidDailyStatsAccount` where the bucket is not that of the loan, with
/// `SafetyCheckCollateralFailed` where the vault cannot hand the collateral
/// out, and with whatever the safety check fails with. A failed call changes
/// nothing; a successful one never lowers the recorded price.
pub fn close_position(ctx: &mut ACommonExtSubLoan, now: i64, es_amount: u64) -> (r: Result<
    Transfers,
    MushiProgramError,
>)
    ensures
        match position_closed(*old(ctx), now, es_amount) {
            Ok((after, transfers)) => r == Ok::<Transfers, MushiProgramError>(transfers)
                && *final(ctx) == after,
            Err(e) => r == Err::<Transfers, MushiProgramError>(e) && *final(ctx) == *old(ctx),
        },
        r is Ok ==> final(ctx).common.global_state.last_price
            >= old(ctx).common.global_state.last_price,
        r matches Ok(transfers) ==> old(ctx).common.settles(final(ctx).common, transfers),
        old(ctx).common.global_state.wf() ==> final(ctx).common.global_state.wf(),
        final(ctx).common.main_state == old(ctx).common.main_state,
{
    let mut common = ctx.common;
    let borrowed = common.user_loan.borrowed;
    let collateral = common.user_loan.collateral;
    if common.is_loan_expired(now) {
        return Err(MushiProgramError::LoanExpired);
    }
    if borrowed != es_amount {
        return Err(MushiProgramError::InvalidLoanAmount);
    }
    let mut daily = ctx.daily_state_old_end_date;
    if daily.date != common.user_loan.end_date {
        return Err(MushiProgramError::InvalidDailyStatsAccount);
    }
    let vault = match common.quote_vault_amount.checked_add(es_amount) {
        Some(sum) => sum,
        None => {
            return Err(MushiProgramError::ArithmeticOverflow);
        },
    };
    if common.token_vault_amount < collateral {
        return Err(MushiProgramError::SafetyCheckCollateralFailed);
    }
    sub_loans_by_date(&mut common.global_state, &mut daily, borrowed, collateral)?;
    common.user_loan = UserLoan::empty();
    common.token_vault_amount = common.token_vault_amount - collateral;
    common.quote_vault_amount = vault;
    common.safety_check(0, true)?;
    ctx.common = common;
    ctx.daily_state_old_end_date = daily;
    let mut transfers = Transfers::none();
    transfers.quote_to_vault = es_amount;
    transfers.tokens_to_user = collateral;
    Ok(transfers)
}

/// The outcome of closing the caller's loan at time `now` out of its own
/// collateral.
///
/// The collateral is sold at the current backing and burned. Of its value,
/// 99 hundredths have to cover the debt; what they exceed it by goes to the
/// caller. Of the remaining hundredth the fee receiver gets its cut, which
/// has to exceed the minimum.
pub open spec fn position_flash_closed(ctx: ACommonExtSubLoan, now: i64) -> Result<
    (ACommonExtSubLoan, Transfers),
    MushiProgramError,
> {
    let loan = ctx.common.user_loan;
    if loan.expired_at(now as int) {
        Err(MushiProgramError::LoanExpired)
    } else {
        match swept_accounts(ctx.common, now) {
            Err(e) => Err(e),
            Ok((swept, forfeited)) => match swept.sell_quote(loan.collateral) {
                Err(e) => Err(e),
                Ok(value) => {
                    let to_user = lendable(value as int) - loan.borrowed;
                    let cut = protocol_cut(buffer(value as int));
                    let vault = swept.quote_vault_amount - to_user - cut;
                    if swept.token_vault_amount < loan.collateral {
                        Err(MushiProgramError::SafetyCheckCollateralFailed)
                    } else if swept.global_state.token_supply < loan.collateral {
                        Err(MushiProgramError::ArithmeticOverflow)
                    } else if to_user < 0 {
                        Err(MushiProgramError::InvalidCollateralAmount)
                    } else if cut <= MIN {
                        Err(MushiProgramError::InvalidFeeAmount)
                    } else if vault < 0 {
                        Err(MushiProgramError::InsufficientEclipseAmountOnVault)
                    } else if ctx.daily_state_old_end_date.date != loan.end_date {
                        Err(MushiProgramError::InvalidDailyStatsAccount)
                    } else {
                        match loans_removed(
                            GlobalStats {
                                token_supply: (swept.global_state.token_supply
                                    - loan.collateral) as u64,
                                ..swept.global_state
                            },
                            ctx.daily_state_old_end_date,
                            loan.borrowed,
                            loan.collateral,
                        ) {
                            None => Err(MushiProgramError::ArithmeticOverflow),
                            Some((global, daily)) => {
                                let closed = ACommon {
                                    global_state: global,
                                    user_loan: UserLoan::cleared(),
                                    token_vault_amount: (swept.token_vault_amount
                                        - loan.collateral) as u64,
                                    quote_vault_amount: vault as u64,
                                    ..swept
                                };
                                match closed.checked(0, true, 0) {
                                    Err(e) => Err(e),
                                    Ok(checked) => Ok(
                                        (
                                            ACommonExtSubLoan {
                                                common: ACommon { global_state: checked, ..closed },
                                                daily_state_old_end_date: daily,
                                            },
                                            Transfers {
                                                quote_to_user: to_user as u64,
                                                fee_from_vault: cut as u64,
                                                burned_from_vault: (forfeited
                                                    + loan.collateral) as u64,
                                                ..Transfers::nothing()
                                            },
                                        ),
                                    ),
                                }
                            },
                        }
                    }
                },
            },
        }
    }
}

/// Closes the caller's loan out of its own collateral.
///
/// Fails with `LoanExpired` where the loan has run out, with `InvalidInput`
/// where no token is outstanding, with `InvalidCollateralAmount` where the
/// collateral does not cover the debt, with `InvalidFeeAmount` where the cut
/// of the fee receiver does not exceed the minimum, with
/// `InsufficientEclipseAmountOnVault` where the vault cannot pay, with
/// `SafetyCheckCollateralFailed` where the vault does not hold the
/// collateral, with `InvalidDailyStatsAccount` where the bucket is not that
/// of the loan, and with whatever the sweep or the safety check fails with.
/// A failed call changes nothing; a successful one never lowers the recorded
/// price.
pub fn flash_close_position(ctx: &mut ACommonExtSubLoan, now: i64) -> (r: Result<
    Transfers,
    MushiProgramError,
>)
    ensures
        match position_flash_closed(*old(ctx), now) {
            Ok((after, transfers)) => r == Ok::<Transfers, MushiProgramError>(transfers)
                && *final(ctx) == after,
            Err(e) => r == Err::<Transfers, MushiProgramError>(e) && *final(ctx) == *old(ctx),
        },
        r is Ok ==> final(ctx).common.global_state.last_price
            >= old(ctx).common.global_state.last_price,
        r matches Ok(transfers) ==> old(ctx).common.settles(final(ctx).common, transfers),
        old(ctx).common.global_state.wf() ==> final(ctx).common.global_state.wf(),
        final(ctx).common.main_state == old(ctx).common.main_state,
{
    let mut common = ctx.common;
    if common.is_loan_expired(now) {
        return Err(MushiProgramError::LoanExpired);
    }
    let forfeited = liquidate_accounts(&mut common, now)?;
    let borrowed = common.user_loan.borrowed;
    let collateral = common.user_loan.collateral;
    let collateral_in_eclipse = common.mushi_to_eclipse(collateral)?;
    if common.token_vault_amount < collateral {
        return Err(MushiProgramError::SafetyCheckCollateralFailed);
    }
    if common.global_state.token_supply < collateral {
        return Err(MushiProgramError::ArithmeticOverflow);
    }
    let collateral_in_eclipse_after_fee = lendable_of(collateral_in_eclipse);
    let fee = buffer_of(collateral_in_eclipse);
    if collateral_in_eclipse_after_fee < borrowed {
        return Err(MushiProgramError::InvalidCollateralAmount);
    }
    let to_user = collateral_in_eclipse_after_fee - borrowed;
    let fee_address_fee = protocol_cut_of(fee);
    if fee_address_fee <= MIN {
        return Err(MushiProgramError::InvalidFeeAmount);
    }
    let vault = match common.quote_vault_amount.checked_sub(to_user) {
        Some(rest) => match rest.checked_sub(fee_address_fee) {
            Some(rest) => rest,
            None => {
                return Err(MushiProgramError::InsufficientEclipseAmountOnVault);
            },
        },
        None => {
            return Err(MushiProgramError::InsufficientEclipseAmountOnVault);
        },
    };
    let mut daily = ctx.daily_state_old_end_date;
    if daily.date != common.user_loan.end_date {
        return Err(MushiProgramError::InvalidDailyStatsAccount);
    }
    common.global_state.token_supply = common.global_state.token_supply - collateral;
    sub_loans_by_date(&mut common.global_state, &mut daily, borrowed, collateral)?;
    common.user_loan = UserLoan::empty();
    common.token_vault_amount = common.token_vault_amount - collateral;
    common.quote_vault_amount = vault;
    common.safety_check(0, true)?;
    ctx.common = common;
    ctx.daily_state_old_end_date = daily;
    let mut transfers = Transfers::none();
    transfers.quote_to_user = to_user;
    transfers.fee_from_vault = fee_address_fee;
    transfers.burned_from_vault = forfeited + collateral;
    Ok(transfers)
}

} // verus!

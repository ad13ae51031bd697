//! Opening a leveraged position.

use vstd::prelude::*;
use crate::calendar::{checked_term_end, term_end, term_fits};
use crate::fees::{buffer, buffer_of, lendable, lendable_of, protocol_cut, protocol_cut_of};
use crate::mushi_program::constants::{MAX_SUPPLY, MIN};
use crate::mushi_program::context::{ACommon, ACommonExtLoan};
use crate::mushi_program::error::MushiProgramError;
use crate::mushi_program::ixs::borrow::settled;
use crate::mushi_program::ixs::buy_sell::{liquidate_accounts, swept_accounts};
use crate::mushi_program::state::{DailyStats, GlobalStats, UserLoan};
use crate::mushi_program::transfers::Transfers;
use crate::mushi_program::utils::{add_loans_by_date, loans_added};

verus! {

/// The outcome of opening a leveraged position of `es_amount` base units
/// for `number_of_days` days at time `now`.
///
/// The fee is the leverage fee plus the interest. What is left of
/// `es_amount` is the position: 99 hundredths of it are lent, and its
/// collateral is minted into the vault. The caller pays the fee and the
/// remaining hundredth. The fee receiver gets its cut of the fee, which has
/// to exceed the minimum.
pub open spec fn leveraged(ctx: ACommonExtLoan, now: i64, number_of_days: u64, es_amount: u64) -> Result<
    (ACommonExtLoan, Transfers),
    MushiProgramError,
> {
    if !ctx.common.main_state.started {
        Err(MushiProgramError::NotStarted)
    } else if number_of_days >= 366 {
        Err(MushiProgramError::InvalidNumberOfDays)
    } else if es_amount == 0 {
        Err(MushiProgramError::InvalidEclipseAmount)
    } else if settled(ctx.common.user_loan, now).borrowed != 0 {
        Err(MushiProgramError::InvalidLoanAmount)
    } else {
        match (ctx.common.leverage_fee_of(es_amount, number_of_days), swept_accounts(ctx.common, now)) {
            (Err(e), _) => Err(e),
            (_, Err(e)) => Err(e),
            (Ok(eclipse_fee), Ok((swept, forfeited))) => {
                let user_eclipse = es_amount - eclipse_fee;
                let cut = protocol_cut(eclipse_fee as int);
                let payment = eclipse_fee + buffer(user_eclipse);
                let vault = swept.quote_vault_amount + payment - cut;
                let end_date = term_end(now as int, number_of_days as int);
                if !term_fits(now, number_of_days) {
                    Err(MushiProgramError::ArithmeticOverflow)
                } else if eclipse_fee > es_amount {
                    Err(MushiProgramError::InvalidFeeAmount)
                } else {
                    match swept.leverage_quote(
                        user_eclipse as u64,
                        (cut + buffer(user_eclipse)) as u64,
                        payment as u64,
                    ) {
                        Err(e) => Err(e),
                        Ok(user_mushi) => {
                            if swept.global_state.token_supply + user_mushi > MAX_SUPPLY {
                                Err(MushiProgramError::MaxSupplyExceeded)
                            } else if cut <= MIN {
                                Err(MushiProgramError::InvalidFeeAmount)
                            } else if vault > u64::MAX || swept.token_vault_amount + user_mushi
                                > u64::MAX {
                                Err(MushiProgramError::ArithmeticOverflow)
                            } else if !ctx.daily_state_end_date.serves(end_date) {
                                Err(MushiProgramError::InvalidDailyStatsAccount)
                            } else {
                                match loans_added(
                                    GlobalStats {
                                        token_supply: (swept.global_state.token_supply
                                            + user_mushi) as u64,
                                        ..swept.global_state
                                    },
                                    DailyStats { date: end_date as i64, ..ctx.daily_state_end_date },
                                    lendable(user_eclipse) as u64,
                                    user_mushi,
                                ) {
                                    None => Err(MushiProgramError::ArithmeticOverflow),
                                    Some((global, daily)) => {
                                        let entered = ACommon {
                                            global_state: global,
                                            user_loan: UserLoan {
                                                collateral: user_mushi,
                                                borrowed: lendable(user_eclipse) as u64,
                                                end_date: end_date as i64,
                                                number_of_days,
                                            },
                                            token_vault_amount: (swept.token_vault_amount
                                                + user_mushi) as u64,
                                            quote_vault_amount: vault as u64,
                                            ..swept
                                        };
                                        match entered.checked(0, true, 0) {
                                            Err(e) => Err(e),
                                            Ok(checked) => Ok(
                                                (
                                                    ACommonExtLoan {
                                                        common: ACommon {
                                                            global_state: checked,
                                                            ..entered
                                                        },
                                                        daily_state_end_date: daily,
                                                    },
                                                    Transfers {
                                                        quote_to_vault: payment as u64,
                                                        fee_from_vault: cut as u64,
                                                        minted_to_vault: user_mushi,
                                                        burned_from_vault: forfeited,
                                                        ..Transfers::nothing()
                                                    },
                                                ),
                                            ),
                                        }
                                    },
                                }
                            }
                        },
                    }
                }
            },
        }
    }
}

/// Opens a leveraged position of `es_amount` base units for
/// `number_of_days` days: a loan whose collateral is minted for it.
///
/// Fails with `NotStarted` before trading has started, with
/// `InvalidNumberOfDays` for 366 days or more, with `InvalidEclipseAmount`
/// for no amount, with `InvalidLoanAmount` where the caller has a loan that
/// has not run out, with `InvalidFeeAmount` where the fee exceeds the amount
/// or the cut of the fee receiver does not exceed the minimum, with
/// `MaxSupplyExceeded` where the supply would pass its cap, with
/// `InvalidDailyStatsAccount` where the bucket belongs to another day than
/// the loan ends on, and with whatever the sweep or the safety check fails
/// with. A failed call changes nothing; a successful one never lowers the
/// recorded price.
pub fn leverage(ctx: &mut ACommonExtLoan, now: i64, number_of_days: u64, es_amount: u64) -> (r:
    Result<Transfers, MushiProgramError>)
    ensures
        match leveraged(*old(ctx), now, number_of_days, es_amount) {
            Ok((after, transfers)) => r == Ok::<Transfers, MushiProgramError>(transfers)
                && *final(ctx) == after,
            Err(e) => r == Err::<Transfers, MushiProgramError>(e) && *final(ctx) == *old(ctx),
        },
        r is Ok ==> final(ctx).common.global_state.last_price
            >= old(ctx).common.global_state.last_price,
        r matches Ok(transfers) ==> old(ctx).common.settles(final(ctx).common, transfers),
        old(ctx).common.global_state.wf() ==> final(ctx).common.global_state.wf(),
        final(ctx).common.main_state == old(ctx).common.main_state,
{
    let mut common = ctx.common;
    if !common.main_state.started {
        return Err(MushiProgramError::NotStarted);
    }
    if number_of_days >= 366 {
        return Err(MushiProgramError::InvalidNumberOfDays);
    }
    if es_amount == 0 {
        return Err(MushiProgramError::InvalidEclipseAmount);
    }
    if common.is_loan_expired(now) {
        common.user_loan = UserLoan::empty();
    }
    if common.user_loan.borrowed != 0 {
        return Err(MushiProgramError::InvalidLoanAmount);
    }
    let eclipse_fee = common.leverage_fee(es_amount, number_of_days)?;
    let forfeited = liquidate_accounts(&mut common, now)?;
    let end_date = match checked_term_end(now, number_of_days) {
        Some(date) => date,
        None => {
            return Err(MushiProgramError::ArithmeticOverflow);
        },
    };
    if eclipse_fee > es_amount {
        return Err(MushiProgramError::InvalidFeeAmount);
    }
    let user_eclipse = es_amount - eclipse_fee;
    let fee_address_amount = protocol_cut_of(eclipse_fee);
    let user_borrow = lendable_of(user_eclipse);
    let over_collateralization_amount = buffer_of(user_eclipse);
    let sub_value = fee_address_amount + over_collateralization_amount;
    let total_fee = eclipse_fee + over_collateralization_amount;
    let user_mushi = common.eclipse_to_mushi_lev(user_eclipse, sub_value, total_fee)?;
    let supply: u128 = (common.global_state.token_supply as u128) + (user_mushi as u128);
    if supply > MAX_SUPPLY as u128 {
        return Err(MushiProgramError::MaxSupplyExceeded);
    }
    if fee_address_amount <= MIN {
        return Err(MushiProgramError::InvalidFeeAmount);
    }
    let vault: u128 = (common.quote_vault_amount as u128) + (total_fee as u128) - (
    fee_address_amount as u128);
    let held = common.token_vault_amount.checked_add(user_mushi);
    if vault > u64::MAX as u128 || held.is_none() {
        return Err(MushiProgramError::ArithmeticOverflow);
    }
    let mut daily = ctx.daily_state_end_date;
    if daily.date != end_date && !(daily.borrowed == 0 && daily.collateral == 0) {
        return Err(MushiProgramError::InvalidDailyStatsAccount);
    }
    daily.date = end_date;
    common.global_state.token_supply = supply as u64;
    add_loans_by_date(&mut common.global_state, &mut daily, user_borrow, user_mushi)?;
    common.user_loan.borrowed = user_borrow;
    common.user_loan.collateral = user_mushi;
    common.user_loan.end_date = end_date;
    common.user_loan.number_of_days = number_of_days;
    common.token_vault_amount = held.unwrap();
    common.quote_vault_amount = vault as u64;
    common.safety_check(0, true)?;
    ctx.common = common;
    ctx.daily_state_end_date = daily;
    let mut transfers = Transfers::none();
    transfers.quote_to_vault = total_fee;
    transfers.fee_from_vault = fee_address_amount;
    transfers.minted_to_vault = user_mushi;
    transfers.burned_from_vault = forfeited;
    Ok(transfers)
}

} // verus!

//! Buying and selling the token against the vault.

use vstd::prelude::*;
use crate::math::{low64, mul_div, mul_div_u64, share};
use crate::mushi_program::constants::{
    FEES_BUY, FEES_BUY_REFERRAL, FEES_SELL, FEE_BASE_1000, MAX_SUPPLY, MIN, TEAM_FEE_BASE,
};
use crate::mushi_program::context::{ACommon, ACommonExtReferral};
use crate::mushi_program::error::MushiProgramError;
use crate::mushi_program::state::GlobalStats;
use crate::mushi_program::transfers::Transfers;
use crate::mushi_program::utils::{liquidate, sweep};

verus! {

/// The part of `amount` that is left after a fee in parts of a thousand.
pub open spec fn after_fee(amount: u64, keeps: u64) -> u64 {
    low64(mul_div(amount as int, keeps as int, 1000)) as u64
}

/// The accounts after one step of the liquidation sweep.
pub open spec fn swept_accounts(ctx: ACommon, now: i64) -> Result<(ACommon, u64), MushiProgramError> {
    match sweep(ctx.global_state, ctx.last_liquidation_date_state, ctx.token_vault_amount, now) {
        Err(e) => Err(e),
        Ok(swept) => Ok(
            (
                ACommon {
                    global_state: swept.global,
                    last_liquidation_date_state: swept.daily,
                    token_vault_amount: swept.token_vault,
                    ..ctx
                },
                swept.forfeited,
            ),
        ),
    }
}

/// Runs one step of the liquidation sweep on the accounts and returns the
/// collateral that was burned. On an error nothing changes.
pub fn liquidate_accounts(ctx: &mut ACommon, now: i64) -> (r: Result<u64, MushiProgramError>)
    ensures
        match swept_accounts(*old(ctx), now) {
            Ok((after, forfeited)) => r == Ok::<u64, MushiProgramError>(forfeited) && *final(ctx)
                == after,
            Err(e) => r == Err::<u64, MushiProgramError>(e) && *final(ctx) == *old(ctx),
        },
        final(ctx).global_state.last_price == old(ctx).global_state.last_price,
        old(ctx).global_state.wf() ==> final(ctx).global_state.wf(),
        final(ctx).main_state == old(ctx).main_state,
{
    let mut global = ctx.global_state;
    let mut daily = ctx.last_liquidation_date_state;
    let mut vault = ctx.token_vault_amount;
    let forfeited = liquidate(&mut daily, &mut global, &mut vault, now)?;
    ctx.global_state = global;
    ctx.last_liquidation_date_state = daily;
    ctx.token_vault_amount = vault;
    Ok(forfeited)
}

/// The treasury's fee on a purchase of `es_amount` base units.
pub open spec fn treasury_fee(es_amount: u64, referred: bool) -> int {
    if referred {
        mul_div(es_amount as int, 100, 10_000)
    } else {
        mul_div(es_amount as int, 125, 10_000)
    }
}

/// The referrer's fee on a purchase of `es_amount` base units.
pub open spec fn referral_fee(es_amount: u64, referred: bool) -> int {
    if referred {
        mul_div(es_amount as int, 25, 10_000)
    } else {
        0
    }
}

/// The outcome of a purchase for `es_amount` base units at time `now`.
///
/// The sweep runs one step. The deposit is priced against the backing
/// without it; the quote has to reach `min_mushi_out` where one is given.
/// The buyer receives the quoted tokens less the buy fee. Of the deposit the
/// treasury and, on a referred purchase, the referrer receive their parts,
/// which together have to exceed the minimum; the rest enters the vault.
/// The safety check ends the purchase.
pub open spec fn purchased(
    ctx: ACommon,
    now: i64,
    es_amount: u64,
    min_mushi_out: Option<u64>,
    referred: bool,
) -> Result<(ACommon, Transfers), MushiProgramError> {
    match swept_accounts(ctx, now) {
        Err(e) => Err(e),
        Ok((swept, forfeited)) => match swept.buy_quote(es_amount) {
            Err(e) => Err(e),
            Ok(mushi) => {
                let minted = after_fee(mushi, swept.main_state.buy_fee);
                let fee_treasury = treasury_fee(es_amount, referred);
                let fee_referral = referral_fee(es_amount, referred);
                let left = es_amount - fee_treasury - fee_referral;
                if min_mushi_out is Some && mushi < min_mushi_out->0 {
                    Err(MushiProgramError::TooSmallOutputAmount)
                } else if !swept.main_state.started {
                    Err(MushiProgramError::NotStarted)
                } else if swept.global_state.token_supply + minted > MAX_SUPPLY {
                    Err(MushiProgramError::MaxSupplyExceeded)
                } else if fee_treasury + fee_referral <= MIN {
                    Err(MushiProgramError::TooSmallTeamFee)
                } else if swept.quote_vault_amount + left > u64::MAX {
                    Err(MushiProgramError::ArithmeticOverflow)
                } else {
                    let settled = ACommon {
                        global_state: GlobalStats {
                            token_supply: (swept.global_state.token_supply + minted) as u64,
                            ..swept.global_state
                        },
                        quote_vault_amount: (swept.quote_vault_amount + left) as u64,
                        ..swept
                    };
                    match settled.checked(0, true, 0) {
                        Err(e) => Err(e),
                        Ok(global) => Ok(
                            (
                                ACommon { global_state: global, ..settled },
                                Transfers {
                                    quote_to_vault: left as u64,
                                    quote_to_fee_receiver: fee_treasury as u64,
                                    quote_to_referral: fee_referral as u64,
                                    minted_to_user: minted,
                                    burned_from_vault: forfeited,
                                    ..Transfers::nothing()
                                },
                            ),
                        ),
                    }
                }
            },
        },
    }
}

/// A purchase, with or without a referrer.
fn purchase(
    ctx: &mut ACommon,
    now: i64,
    es_amount: u64,
    min_mushi_out: Option<u64>,
    referred: bool,
) -> (r: Result<Transfers, MushiProgramError>)
    ensures
        match purchased(*old(ctx), now, es_amount, min_mushi_out, referred) {
            Ok((after, transfers)) => r == Ok::<Transfers, MushiProgramError>(transfers)
                && *final(ctx) == after,
            Err(e) => r == Err::<Transfers, MushiProgramError>(e) && *final(ctx) == *old(ctx),
        },
        r is Ok ==> final(ctx).global_state.last_price >= old(ctx).global_state.last_price,
        r matches Ok(transfers) ==> old(ctx).settles(*final(ctx), transfers),
        old(ctx).global_state.wf() ==> final(ctx).global_state.wf(),
        final(ctx).main_state == old(ctx).main_state,
{
    let mut common = *ctx;
    let forfeited = liquidate_accounts(&mut common, now)?;
    let mushi = common.eclipse_to_mushi(es_amount)?;
    match min_mushi_out {
        Some(least) => {
            if mushi < least {
                return Err(MushiProgramError::TooSmallOutputAmount);
            }
        },
        None => {},
    }
    if !common.main_state.started {
        return Err(MushiProgramError::NotStarted);
    }
    let minted = mul_div_u64(mushi, common.main_state.buy_fee, FEE_BASE_1000);
    let supply: u128 = (common.global_state.token_supply as u128) + (minted as u128);
    if supply > MAX_SUPPLY as u128 {
        return Err(MushiProgramError::MaxSupplyExceeded);
    }
    let fee_treasury = if referred {
        share(es_amount, FEES_BUY, TEAM_FEE_BASE)
    } else {
        share(es_amount, FEES_BUY + FEES_BUY_REFERRAL, TEAM_FEE_BASE)
    };
    let fee_referral = if referred {
        share(es_amount, FEES_BUY_REFERRAL, TEAM_FEE_BASE)
    } else {
        0
    };
    if fee_treasury + fee_referral <= MIN {
        return Err(MushiProgramError::TooSmallTeamFee);
    }
    let left_es_amount = es_amount - fee_treasury - fee_referral;
    let vault = match common.quote_vault_amount.checked_add(left_es_amount) {
        Some(sum) => sum,
        None => {
            return Err(MushiProgramError::ArithmeticOverflow);
        },
    };
    common.global_state.token_supply = supply as u64;
    common.quote_vault_amount = vault;
    common.safety_check(0, true)?;
    *ctx = common;
    let mut transfers = Transfers::none();
    transfers.quote_to_vault = left_es_amount;
    transfers.quote_to_fee_receiver = fee_treasury;
    transfers.quote_to_referral = fee_referral;
    transfers.minted_to_user = minted;
    transfers.burned_from_vault = forfeited;
    Ok(transfers)
}

/// Buys tokens for `es_amount` base units, at least `min_mushi_out` of them
/// before the buy fee where that is given.
///
/// Fails with `InvalidInput` where the backing is empty, with
/// `TooSmallOutputAmount` where the quote is below `min_mushi_out`, with
/// `NotStarted` before trading has started, with `MaxSupplyExceeded` where
/// the supply would pass its cap, with `TooSmallTeamFee` where the
/// treasury's fee does not exceed the minimum, and with whatever the sweep
/// or the safety check fails with. A failed purchase changes nothing; a
/// successful one never lowers the recorded price.
pub fn buy(ctx: &mut ACommon, now: i64, es_amount: u64, min_mushi_out: Option<u64>) -> (r: Result<
    Transfers,
    MushiProgramError,
>)
    ensures
        match purchased(*old(ctx), now, es_amount, min_mushi_out, false) {
            Ok((after, transfers)) => r == Ok::<Transfers, MushiProgramError>(transfers)
                && *final(ctx) == after,
            Err(e) => r == Err::<Transfers, MushiProgramError>(e) && *final(ctx) == *old(ctx),
        },
        r is Ok ==> final(ctx).global_state.last_price >= old(ctx).global_state.last_price,
        r matches Ok(transfers) ==> old(ctx).settles(*final(ctx), transfers),
        old(ctx).global_state.wf() ==> final(ctx).global_state.wf(),
        final(ctx).main_state == old(ctx).main_state,
{
    purchase(ctx, now, es_amount, min_mushi_out, false)
}

/// Buys tokens for `es_amount` base units and pays the referrer named in
/// the accounts a part of the fee. Fails as [`buy`] does, the treasury's and
/// the referrer's fee counted together.
pub fn buy_with_referral(
    ctx: &mut ACommonExtReferral,
    now: i64,
    es_amount: u64,
    min_mushi_out: Option<u64>,
) -> (r: Result<Transfers, MushiProgramError>)
    ensures
        match purchased(old(ctx).common, now, es_amount, min_mushi_out, true) {
            Ok((after, transfers)) => r == Ok::<Transfers, MushiProgramError>(transfers)
                && *final(ctx) == (ACommonExtReferral { common: after, ..*old(ctx) }),
            Err(e) => r == Err::<Transfers, MushiProgramError>(e) && *final(ctx) == *old(ctx),
        },
        r is Ok ==> final(ctx).common.global_state.last_price
            >= old(ctx).common.global_state.last_price,
        r matches Ok(transfers) ==> old(ctx).common.settles(final(ctx).common, transfers),
        old(ctx).common.global_state.wf() ==> final(ctx).common.global_state.wf(),
        final(ctx).common.main_state == old(ctx).common.main_state,
{
    let mut common = ctx.common;
    let transfers = purchase(&mut common, now, es_amount, min_mushi_out, true)?;
    ctx.common = common;
    Ok(transfers)
}

/// The outcome of a sale of `token_amount` tokens at time `now`.
///
/// The sweep runs one step. The tokens are priced at the current backing;
/// the quote has to reach `min_eclipse_out` where one is given. The tokens
/// are burned. The seller receives the quote less the sell fee, the treasury
/// its part of the quote, which has to exceed the minimum. The safety check
/// ends the sale.
pub open spec fn sold(
    ctx: ACommon,
    now: i64,
    token_amount: u64,
    min_eclipse_out: Option<u64>,
) -> Result<(ACommon, Transfers), MushiProgramError> {
    match swept_accounts(ctx, now) {
        Err(e) => Err(e),
        Ok((swept, forfeited)) => match swept.sell_quote(token_amount) {
            Err(e) => Err(e),
            Ok(es_amount) => {
                let fee = mul_div(es_amount as int, 125, 10_000);
                let payout = after_fee(es_amount, swept.main_state.sell_fee);
                if min_eclipse_out is Some && es_amount < min_eclipse_out->0 {
                    Err(MushiProgramError::TooSmallOutputAmount)
                } else if swept.global_state.token_supply < token_amount {
                    Err(MushiProgramError::InsufficientMushiAmountOnUserAta)
                } else if fee <= MIN {
                    Err(MushiProgramError::TooSmallInputAmount)
                } else if swept.quote_vault_amount < payout + fee {
                    Err(MushiProgramError::InsufficientEclipseAmountOnVault)
                } else {
                    let settled = ACommon {
                        global_state: GlobalStats {
                            token_supply: (swept.global_state.token_supply - token_amount) as u64,
                            ..swept.global_state
                        },
                        quote_vault_amount: (swept.quote_vault_amount - payout - fee) as u64,
                        ..swept
                    };
                    match settled.checked(0, true, 0) {
                        Err(e) => Err(e),
                        Ok(global) => Ok(
                            (
                                ACommon { global_state: global, ..settled },
                                Transfers {
                                    quote_to_user: payout,
                                    fee_from_vault: fee as u64,
                                    burned_from_user: token_amount,
                                    burned_from_vault: forfeited,
                                    ..Transfers::nothing()
                                },
                            ),
                        ),
                    }
                }
            },
        },
    }
}

/// Sells `token_amount` tokens, for at least `min_eclipse_out` base units
/// before the sell fee where that is given.
///
/// Fails with `InvalidInput` where no token is outstanding, with
/// `TooSmallOutputAmount` where the quote is below `min_eclipse_out`, with
/// `InsufficientMushiAmountOnUserAta` where more tokens are sold than exist,
/// with `TooSmallInputAmount` where the treasury's fee does not exceed the
/// minimum, with `InsufficientEclipseAmountOnVault` where the vault cannot
/// pay, and with whatever the sweep or the safety check fails with. A failed
/// sale changes nothing; a successful one never lowers the recorded price.
pub fn sell(ctx: &mut ACommon, now: i64, token_amount: u64, min_eclipse_out: Option<u64>) -> (r:
    Result<Transfers, MushiProgramError>)
    ensures
        match sold(*old(ctx), now, token_amount, min_eclipse_out) {
            Ok((after, transfers)) => r == Ok::<Transfers, MushiProgramError>(transfers)
                && *final(ctx) == after,
            Err(e) => r == Err::<Transfers, MushiProgramError>(e) && *final(ctx) == *old(ctx),
        },
        r is Ok ==> final(ctx).global_state.last_price >= old(ctx).global_state.last_price,
        r matches Ok(transfers) ==> old(ctx).settles(*final(ctx), transfers),
        old(ctx).global_state.wf() ==> final(ctx).global_state.wf(),
        final(ctx).main_state == old(ctx).main_state,
{
    let mut common = *ctx;
    let forfeited = liquidate_accounts(&mut common, now)?;
    let es_amount = common.mushi_to_eclipse(token_amount)?;
    match min_eclipse_out {
        Some(least) => {
            if es_amount < least {
                return Err(MushiProgramError::TooSmallOutputAmount);
            }
        },
        None => {},
    }
    if common.global_state.token_supply < token_amount {
        return Err(MushiProgramError::InsufficientMushiAmountOnUserAta);
    }
    let eclipse_fee_amount = share(es_amount, FEES_SELL, TEAM_FEE_BASE);
    if eclipse_fee_amount <= MIN {
        return Err(MushiProgramError::TooSmallInputAmount);
    }
    let payout = mul_div_u64(es_amount, common.main_state.sell_fee, FEE_BASE_1000);
    let vault = match common.quote_vault_amount.checked_sub(payout) {
        Some(rest) => match rest.checked_sub(eclipse_fee_amount) {
            Some(rest) => rest,
            None => {
                return Err(MushiProgramError::InsufficientEclipseAmountOnVault);
            },
        },
        None => {
            return Err(MushiProgramError::InsufficientEclipseAmountOnVault);
        },
    };
    common.global_state.token_supply = common.global_state.token_supply - token_amount;
    common.quote_vault_amount = vault;
    common.safety_check(0, true)?;
    *ctx = common;
    let mut transfers = Transfers::none();
    transfers.quote_to_user = payout;
    transfers.fee_from_vault = eclipse_fee_amount;
    transfers.burned_from_user = token_amount;
    transfers.burned_from_vault = forfeited;
    Ok(transfers)
}

/// Runs the liquidation sweep for one day at time `now`. While the cursor
/// is not in the past nothing changes, and nothing is burned.
pub fn liquidate_expired_loans(ctx: &mut ACommon, now: i64) -> (r: Result<
    Transfers,
    MushiProgramError,
>)
    ensures
        match swept_accounts(*old(ctx), now) {
            Ok((after, forfeited)) => r == Ok::<Transfers, MushiProgramError>(
                Transfers { burned_from_vault: forfeited, ..Transfers::nothing() },
            ) && *final(ctx) == after,
            Err(e) => r == Err::<Transfers, MushiProgramError>(e) && *final(ctx) == *old(ctx),
        },
        old(ctx).global_state.last_liquidation_date >= now ==> r == Ok::<
            Transfers,
            MushiProgramError,
        >(Transfers::nothing()) && *final(ctx) == *old(ctx),
        final(ctx).global_state.last_price == old(ctx).global_state.last_price,
        old(ctx).global_state.wf() ==> final(ctx).global_state.wf(),
        final(ctx).main_state == old(ctx).main_state,
{
    let forfeited = liquidate_accounts(ctx, now)?;
    let mut transfers = Transfers::none();
    transfers.burned_from_vault = forfeited;
    Ok(transfers)
}

} // verus!

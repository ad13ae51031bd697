//! What holds of the instructions beyond their own outcome.

use vstd::prelude::*;
use crate::fees::{lemma_further_loan_nearly_covered, lendable};
use crate::math::{lemma_mul_div_monotonic_right, low64};
use crate::mushi_program::context::{ACommon, ACommonExtLoan, ACommonExtSubLoan};
use crate::mushi_program::ixs::leverage::leveraged;
use crate::mushi_program::ixs::remove_collateral::collateral_removed;
use crate::mushi_program::state::{DailyStats, GlobalStats};
use crate::mushi_program::utils::sweep;
use crate::mushi_program::ixs::borrow::{borrowed, borrowed_more};
use crate::mushi_program::ixs::buy_sell::{purchased, sold, swept_accounts};
use crate::pricing::{
    lemma_collateral_covers, lemma_round_trip_loss, no_trade, no_trade_ceil, price, trade_buy,
    trade_sell,
};

verus! {

/// Round-trip loss: whoever buys tokens and sells them again, before the
/// sweep or anyone else has touched the ledger, is paid no more than the
/// deposit.
pub proof fn lemma_buy_then_sell_loses(
    ctx: ACommon,
    now: i64,
    es_amount: u64,
    referred: bool,
    later: i64,
)
    requires
        ctx.main_state.wf(),
        purchased(ctx, now, es_amount, None, referred) is Ok,
        purchased(ctx, now, es_amount, None, referred)->Ok_0.0.global_state.last_liquidation_date
            >= later,
        sold(
            purchased(ctx, now, es_amount, None, referred)->Ok_0.0,
            later,
            purchased(ctx, now, es_amount, None, referred)->Ok_0.1.minted_to_user,
            None,
        ) is Ok,
    ensures
        ({
            let (held, purchase) = purchased(ctx, now, es_amount, None, referred)->Ok_0;
            let sale = sold(held, later, purchase.minted_to_user, None)->Ok_0.1;
            sale.quote_to_user <= es_amount
        }),
{
    let (held, purchase) = purchased(ctx, now, es_amount, None, referred)->Ok_0;
    let swept = swept_accounts(ctx, now)->Ok_0.0;
    let supply = swept.global_state.token_supply as int;
    let before = swept.backing(0);
    let quoted = trade_buy(es_amount as int, supply, before + es_amount);
    let mushi = crate::math::low64(quoted);
    lemma_mul_div_monotonic_right(mushi, swept.main_state.buy_fee as int, 1000, 1000);
    let minted = purchase.minted_to_user as int;
    let after = held.backing(0);
    lemma_round_trip_loss(es_amount as int, supply, before, minted, after);
    let worth = trade_sell(minted, supply + minted, after);
    let es = crate::math::low64(worth);
    lemma_mul_div_monotonic_right(es, held.main_state.sell_fee as int, 1000, 1000);
}

/// Collateral sufficiency: after `borrow` the debt is within 99 hundredths
/// of what the collateral sells for at the backing and the supply that the
/// call leaves. The collateral asked for has to fit in 64 bits.
pub proof fn lemma_borrow_collateral_sufficient(
    ctx: ACommonExtLoan,
    now: i64,
    number_of_days: u64,
    es_amount: u64,
)
    requires
        borrowed(ctx, now, number_of_days, es_amount) is Ok,
        ({
            let swept = swept_accounts(ctx.common, now)->Ok_0.0;
            no_trade_ceil(
                es_amount as int,
                swept.global_state.token_supply as int,
                swept.backing(0),
            ) <= u64::MAX
        }),
    ensures
        ({
            let after = borrowed(ctx, now, number_of_days, es_amount)->Ok_0.0.common;
            after.user_loan.borrowed <= lendable(
                trade_sell(
                    after.user_loan.collateral as int,
                    after.global_state.token_supply as int,
                    after.backing(0),
                ),
            )
        }),
{
    let after = borrowed(ctx, now, number_of_days, es_amount)->Ok_0.0.common;
    let swept = swept_accounts(ctx.common, now)->Ok_0.0;
    let supply = swept.global_state.token_supply as int;
    let before = swept.backing(0);
    let left = after.backing(0);
    lemma_collateral_covers(es_amount as int, supply, before, left);
}

/// Collateral after `borrow_more`: the debt after the call, at the supply,
/// exceeds 99 hundredths of the collateral, at the backing, by less than 101
/// hundredths of the backing. The roundings of the call can cost the worth
/// of about one token, so that the debt may pass 99 hundredths of what the
/// collateral sells for by that much. The collateral asked for and the token
/// value of the debt have to fit in 64 bits.
pub proof fn lemma_borrow_more_collateral_nearly_sufficient(
    ctx: ACommonExtSubLoan,
    now: i64,
    es_amount: u64,
)
    requires
        borrowed_more(ctx, now, es_amount) is Ok,
        ({
            let swept = swept_accounts(ctx.common, now)->Ok_0.0;
            let supply = swept.global_state.token_supply as int;
            &&& no_trade_ceil(es_amount as int, supply, swept.backing(0)) <= u64::MAX
            &&& no_trade(ctx.common.user_loan.borrowed as int, supply, swept.backing(0))
                <= u64::MAX
        }),
    ensures
        ({
            let after = borrowed_more(ctx, now, es_amount)->Ok_0.0.common;
            let left = after.backing(0);
            100 * (after.user_loan.borrowed * after.global_state.token_supply) <= 99 * (
            after.user_loan.collateral * left) + 101 * left
        }),
{
    let loan = ctx.common.user_loan;
    let after = borrowed_more(ctx, now, es_amount)->Ok_0.0.common;
    let swept = swept_accounts(ctx.common, now)->Ok_0.0;
    let supply = swept.global_state.token_supply as int;
    let before = swept.backing(0);
    let left = after.backing(0);
    let added = after.user_loan.collateral - loan.collateral;
    lemma_further_loan_nearly_covered(
        loan.borrowed as int,
        loan.collateral as int,
        es_amount as int,
        added,
        supply,
        before,
        left,
    );
}

/// One step of the sweep that is due: the bucket of the cursor's day is
/// emptied, what it held leaves the totals, its collateral is burned out of
/// the vault and out of the supply, and the cursor moves on by a day.
///
/// The bucket holds no more than the totals. The step is carried out
/// exactly where the vault and the supply hold the tokens to be burned and
/// the next day can be stored; where it is not, it fails and changes
/// nothing. A burn is asked for exactly where the bucket held collateral,
/// and a vault that covered the collateral of all loans still covers it.
pub proof fn lemma_sweep_step_forfeits(
    global: GlobalStats,
    daily: DailyStats,
    token_vault: u64,
    now: i64,
)
    requires
        global.last_liquidation_date < now,
        daily.serves(global.last_liquidation_date as int),
        daily.borrowed <= global.total_borrowed,
        daily.collateral <= global.total_collateral,
    ensures
        sweep(global, daily, token_vault, now) is Ok <==> daily.collateral <= token_vault
            && daily.collateral <= global.token_supply && global.last_liquidation_date + 86400
            <= i64::MAX,
        sweep(global, daily, token_vault, now) is Ok ==> ({
            let swept = sweep(global, daily, token_vault, now)->Ok_0;
            &&& swept.global.total_borrowed == global.total_borrowed - daily.borrowed
            &&& swept.global.total_collateral == global.total_collateral - daily.collateral
            &&& swept.global.token_supply == global.token_supply - daily.collateral
            &&& swept.global.last_liquidation_date == global.last_liquidation_date + 86400
            &&& swept.global.last_price == global.last_price
            &&& swept.daily.borrowed == 0
            &&& swept.daily.collateral == 0
            &&& swept.daily.date == daily.date
            &&& swept.token_vault == token_vault - daily.collateral
            &&& swept.forfeited == daily.collateral
            &&& swept.forfeited > 0 <==> daily.collateral > 0
            &&& global.total_collateral <= token_vault ==> swept.global.total_collateral
                <= swept.token_vault
        }),
{
}

/// What `leverage` enters: the collateral it mints counts as supply, the
/// price it records is taken over that supply, and the totals grow by what
/// the new loan owes and holds. All of it is reckoned from the ledger as the
/// sweep at the head of the call leaves it; where the sweep is not due, that
/// is the ledger the call was handed.
pub proof fn lemma_leverage_enters_the_loan(
    ctx: ACommonExtLoan,
    now: i64,
    number_of_days: u64,
    es_amount: u64,
)
    requires
        leveraged(ctx, now, number_of_days, es_amount) is Ok,
    ensures
        ({
            let (after, transfers) = leveraged(ctx, now, number_of_days, es_amount)->Ok_0;
            let swept = swept_accounts(ctx.common, now)->Ok_0.0;
            let loan = after.common.user_loan;
            &&& ctx.common.global_state.last_liquidation_date >= now ==> swept == ctx.common
            &&& transfers.minted_to_vault == loan.collateral
            &&& after.common.global_state.token_supply == swept.global_state.token_supply
                + loan.collateral
            &&& after.common.global_state.total_collateral
                == swept.global_state.total_collateral + loan.collateral
            &&& after.common.global_state.total_borrowed == swept.global_state.total_borrowed
                + loan.borrowed
            &&& after.common.token_vault_amount == swept.token_vault_amount + loan.collateral
            &&& after.common.global_state.last_price == low64(
                price(
                    after.common.backing(0),
                    swept.global_state.token_supply + loan.collateral,
                ),
            )
            &&& after.common.global_state.last_price >= ctx.common.global_state.last_price
        }),
{
}

/// What `borrow_more` enters: the loan, the bucket of its last day and the
/// totals grow by the same debt, 99 hundredths of the amount, and by the
/// same collateral, the tokens the caller moves into the vault. The totals
/// are reckoned from the ledger as the sweep at the head of the call leaves
/// it; where the sweep is not due, that is the ledger the call was handed.
pub proof fn lemma_borrow_more_enters_alike(ctx: ACommonExtSubLoan, now: i64, es_amount: u64)
    requires
        borrowed_more(ctx, now, es_amount) is Ok,
    ensures
        ({
            let (after, transfers) = borrowed_more(ctx, now, es_amount)->Ok_0;
            let swept = swept_accounts(ctx.common, now)->Ok_0.0;
            let before = ctx.common.user_loan;
            let loan = after.common.user_loan;
            &&& ctx.common.global_state.last_liquidation_date >= now ==> swept == ctx.common
            &&& loan.borrowed - before.borrowed == lendable(es_amount as int)
            &&& after.daily_state_old_end_date.borrowed - ctx.daily_state_old_end_date.borrowed
                == lendable(es_amount as int)
            &&& after.common.global_state.total_borrowed - swept.global_state.total_borrowed
                == lendable(es_amount as int)
            &&& loan.collateral - before.collateral == transfers.tokens_to_vault
            &&& after.daily_state_old_end_date.collateral
                - ctx.daily_state_old_end_date.collateral == transfers.tokens_to_vault
            &&& after.common.global_state.total_collateral
                - swept.global_state.total_collateral == transfers.tokens_to_vault
            &&& after.common.token_vault_amount - swept.token_vault_amount
                == transfers.tokens_to_vault
        }),
{
}

/// What `remove_collateral` leaves: the debt is within 99 hundredths of
/// what the collateral that stays sells for, at the backing and the supply
/// the sweep at the head of the call leaves, and the loan, the bucket of its
/// last day, the totals and the vault have given up the tokens released.
pub proof fn lemma_remove_collateral_leaves_cover(ctx: ACommonExtSubLoan, now: i64, amount: u64)
    requires
        collateral_removed(ctx, now, amount) is Ok,
    ensures
        ({
            let (after, transfers) = collateral_removed(ctx, now, amount)->Ok_0;
            let swept = swept_accounts(ctx.common, now)->Ok_0.0;
            let loan = after.common.user_loan;
            &&& swept.sell_quote(loan.collateral) is Ok
            &&& loan.borrowed <= lendable(swept.sell_quote(loan.collateral)->Ok_0 as int)
            &&& transfers.tokens_to_user == amount
            &&& loan.collateral == ctx.common.user_loan.collateral - amount
            &&& loan.borrowed == ctx.common.user_loan.borrowed
            &&& after.daily_state_old_end_date.collateral
                == ctx.daily_state_old_end_date.collateral - amount
            &&& after.common.global_state.total_collateral
                == swept.global_state.total_collateral - amount
            &&& after.common.token_vault_amount == swept.token_vault_amount - amount
        }),
{
}

} // verus!

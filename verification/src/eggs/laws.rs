//! What holds of the operations beyond their own outcome.

use vstd::prelude::*;
use crate::eggs::context::{LoanOperation, Trade};
use crate::eggs::lending::{borrowed, borrowed_more, leveraged};
use crate::eggs::position::collateral_removed;
use crate::eggs::states::{DailyLoanData, EggsState};
use crate::eggs::trading::{bought, sold};
use crate::eggs::utils::{backing, eggs_to_sol, sweep};
use crate::fees::{lemma_further_loan_nearly_covered, lendable};
use crate::math::{lemma_mul_div_monotonic_right, low64};
use crate::pricing::{
    lemma_collateral_covers, lemma_round_trip_loss, no_trade, no_trade_ceil, price, trade_buy,
    trade_sell,
};

verus! {

/// Round-trip loss: whoever buys tokens and sells them again, before the
/// sweep or anyone else has touched the state, is paid no more than the
/// deposit; and what the state account pays out for the sale, seller and
/// fee address together, is no more than the deposit either.
pub proof fn lemma_buy_then_sell_loses(ctx: Trade, now: i64, amount: u64, later: i64)
    requires
        ctx.state.wf(),
        bought(ctx, now, amount) is Ok,
        bought(ctx, now, amount)->Ok_0.0.state.last_liquidation_date >= later,
        sold(bought(ctx, now, amount)->Ok_0.0, later, bought(ctx, now, amount)->Ok_0.1.minted)
            is Ok,
    ensures
        ({
            let (held, purchase) = bought(ctx, now, amount)->Ok_0;
            let sale = sold(held, later, purchase.minted)->Ok_0.1;
            &&& sale.paid_out <= amount
            &&& sale.paid_out + sale.fee_paid <= amount
        }),
{
    let (held, purchase) = bought(ctx, now, amount)->Ok_0;
    let swept = sweep(ctx.state, ctx.liquidation_data, ctx.escrow_token_amount, now)->Ok_0;
    let supply = swept.state.total_minted as int;
    let before = backing(swept.state, ctx.state_account_lamports);
    let quoted = trade_buy(amount as int, supply, before + amount);
    // What is minted is no more than the quote.
    let eggs = crate::math::low64(quoted);
    lemma_mul_div_monotonic_right(eggs, swept.state.buy_fee as int, 1000, 1000);
    let minted = purchase.minted as int;
    // What the tokens sell for is no more than the deposit.
    let after = backing(held.state, held.state_account_lamports);
    lemma_round_trip_loss(amount as int, supply, before, minted, after);
    let worth = trade_sell(minted, supply + minted, after);
    let sol = crate::math::low64(worth);
    // The seller's part and the fee are parts of it.
    lemma_mul_div_monotonic_right(sol, held.state.sell_fee as int, 992, 1000);
}

/// Collateral sufficiency: after `borrow` the debt is within 99 hundredths
/// of what the collateral sells for at the backing and the supply that the
/// call leaves. The collateral asked for has to fit in 64 bits.
pub proof fn lemma_borrow_collateral_sufficient(
    ctx: LoanOperation,
    now: i64,
    sol: u64,
    number_of_days: u64,
)
    requires
        borrowed(ctx, now, sol, number_of_days) is Ok,
        ({
            let swept = sweep(ctx.state, ctx.liquidation_data, ctx.escrow_token_amount, now)->Ok_0;
            no_trade_ceil(
                sol as int,
                swept.state.total_minted as int,
                backing(swept.state, ctx.state_account_lamports),
            ) <= u64::MAX
        }),
    ensures
        ({
            let after = borrowed(ctx, now, sol, number_of_days)->Ok_0.0;
            after.loan.borrowed <= lendable(
                trade_sell(
                    after.loan.collateral as int,
                    after.state.total_minted as int,
                    backing(after.state, after.state_account_lamports),
                ),
            )
        }),
{
    let after = borrowed(ctx, now, sol, number_of_days)->Ok_0.0;
    let swept = sweep(ctx.state, ctx.liquidation_data, ctx.escrow_token_amount, now)->Ok_0;
    let supply = swept.state.total_minted as int;
    let before = backing(swept.state, ctx.state_account_lamports);
    let left = backing(after.state, after.state_account_lamports);
    lemma_collateral_covers(sol as int, supply, before, left);
}

/// Collateral after `borrow_more`: where 99 hundredths of the collateral
/// held covered the token value of the debt before the call, the debt after
/// it, at the supply, exceeds 99 hundredths of the collateral, at the
/// backing, by less than 101 hundredths of the backing. The roundings of the
/// call can cost the worth of about one token, so that the debt may pass 99
/// hundredths of what the collateral sells for by that much. The collateral
/// asked for has to fit in 64 bits.
pub proof fn lemma_borrow_more_collateral_nearly_sufficient(ctx: LoanOperation, now: i64, sol: u64)
    requires
        borrowed_more(ctx, now, sol) is Ok,
        ({
            let swept = sweep(ctx.state, ctx.liquidation_data, ctx.escrow_token_amount, now)->Ok_0;
            let supply = swept.state.total_minted as int;
            let backing = backing(swept.state, ctx.state_account_lamports);
            &&& no_trade_ceil(sol as int, supply, backing) <= u64::MAX
            &&& lendable(ctx.loan.collateral as int) >= no_trade(
                ctx.loan.borrowed as int,
                supply,
                backing,
            )
        }),
    ensures
        ({
            let after = borrowed_more(ctx, now, sol)->Ok_0.0;
            let left = backing(after.state, after.state_account_lamports);
            100 * (after.loan.borrowed * after.state.total_minted) <= 99 * (after.loan.collateral
                * left) + 101 * left
        }),
{
    let after = borrowed_more(ctx, now, sol)->Ok_0.0;
    let swept = sweep(ctx.state, ctx.liquidation_data, ctx.escrow_token_amount, now)->Ok_0;
    let supply = swept.state.total_minted as int;
    let before = backing(swept.state, ctx.state_account_lamports);
    let left = backing(after.state, after.state_account_lamports);
    let added = after.loan.collateral - ctx.loan.collateral;
    lemma_further_loan_nearly_covered(
        ctx.loan.borrowed as int,
        ctx.loan.collateral as int,
        sol as int,
        added,
        supply,
        before,
        left,
    );
}

/// One step of the sweep that is due: the bucket of the cursor's day is
/// emptied, what it held leaves the totals, its collateral is burned out of
/// the escrow and out of the supply, and the cursor moves on by a day.
///
/// The bucket holds no more than the totals. The step is carried out
/// exactly where the escrow and the supply hold the tokens to be burned and
/// the next day can be stored; where it is not, it fails and changes
/// nothing. A burn is asked for exactly where the bucket held collateral,
/// and an escrow that covered the collateral of all loans still covers it.
pub proof fn lemma_sweep_step_forfeits(
    state: EggsState,
    daily: DailyLoanData,
    escrow: u64,
    now: i64,
)
    requires
        state.last_liquidation_date < now,
        daily.serves(state.last_liquidation_date as int),
        daily.borrowed <= state.total_borrowed,
        daily.collateral <= state.total_collateral,
    ensures
        sweep(state, daily, escrow, now) is Ok <==> daily.collateral <= escrow
            && daily.collateral <= state.total_minted && state.last_liquidation_date + 86400
            <= i64::MAX,
        sweep(state, daily, escrow, now) is Ok ==> ({
            let swept = sweep(state, daily, escrow, now)->Ok_0;
            &&& swept.state.total_borrowed == state.total_borrowed - daily.borrowed
            &&& swept.state.total_collateral == state.total_collateral - daily.collateral
            &&& swept.state.total_minted == state.total_minted - daily.collateral
            &&& swept.state.last_liquidation_date == state.last_liquidation_date + 86400
            &&& swept.state.last_price == state.last_price
            &&& swept.daily.borrowed == 0
            &&& swept.daily.collateral == 0
            &&& swept.daily.date == daily.date
            &&& swept.escrow == escrow - daily.collateral
            &&& swept.forfeited == daily.collateral
            &&& swept.forfeited > 0 <==> daily.collateral > 0
            &&& state.total_collateral <= escrow ==> swept.state.total_collateral <= swept.escrow
        }),
{
}

/// What `leverage` enters: the collateral it mints counts as supply, the
/// price it records is taken over that supply, and the totals grow by what
/// the new loan owes and holds. All of it is reckoned from the state as the
/// sweep at the head of the call leaves it; where the sweep is not due, that
/// is the state the call was handed.
pub proof fn lemma_leverage_enters_the_loan(
    ctx: LoanOperation,
    now: i64,
    sol: u64,
    number_of_days: u64,
)
    requires
        leveraged(ctx, now, sol, number_of_days) is Ok,
    ensures
        ({
            let (after, settlement) = leveraged(ctx, now, sol, number_of_days)->Ok_0;
            let swept = sweep(ctx.state, ctx.liquidation_data, ctx.escrow_token_amount, now)->Ok_0;
            &&& ctx.state.last_liquidation_date >= now ==> swept.state == ctx.state
            &&& settlement.minted_to_escrow == after.loan.collateral
            &&& after.state.total_minted == swept.state.total_minted + after.loan.collateral
            &&& after.state.total_collateral == swept.state.total_collateral
                + after.loan.collateral
            &&& after.state.total_borrowed == swept.state.total_borrowed + after.loan.borrowed
            &&& after.escrow_token_amount == swept.escrow + after.loan.collateral
            &&& after.state.last_price == low64(
                price(
                    after.state.total_borrowed + after.state_account_lamports,
                    swept.state.total_minted + after.loan.collateral,
                ),
            )
            &&& after.state.last_price >= ctx.state.last_price
        }),
{
}

/// What `borrow_more` enters: the loan, the bucket of its last day and the
/// totals grow by the same debt, 99 hundredths of the amount, and by the
/// same collateral, the tokens the caller moves into escrow. The totals are
/// reckoned from the state as the sweep at the head of the call leaves it;
/// where the sweep is not due, that is the state the call was handed.
pub proof fn lemma_borrow_more_enters_alike(ctx: LoanOperation, now: i64, sol: u64)
    requires
        borrowed_more(ctx, now, sol) is Ok,
    ensures
        ({
            let (after, settlement) = borrowed_more(ctx, now, sol)->Ok_0;
            let swept = sweep(ctx.state, ctx.liquidation_data, ctx.escrow_token_amount, now)->Ok_0;
            &&& ctx.state.last_liquidation_date >= now ==> swept.state == ctx.state
            &&& after.loan.borrowed - ctx.loan.borrowed == lendable(sol as int)
            &&& after.daily_loan_data.borrowed - ctx.daily_loan_data.borrowed == lendable(
                sol as int,
            )
            &&& after.state.total_borrowed - swept.state.total_borrowed == lendable(sol as int)
            &&& after.loan.collateral - ctx.loan.collateral == settlement.escrowed
            &&& after.daily_loan_data.collateral - ctx.daily_loan_data.collateral
                == settlement.escrowed
            &&& after.state.total_collateral - swept.state.total_collateral
                == settlement.escrowed
            &&& after.escrow_token_amount - swept.escrow == settlement.escrowed
        }),
{
}

/// What `remove_collateral` leaves: the debt is within 99 hundredths of
/// what the collateral that stays sells for, at the backing and the supply
/// the sweep at the head of the call leaves, and the loan, the bucket of its
/// last day, the totals and the escrow have given up the tokens released.
pub proof fn lemma_remove_collateral_leaves_cover(ctx: LoanOperation, now: i64, amount: u64)
    requires
        collateral_removed(ctx, now, amount) is Ok,
    ensures
        ({
            let (after, settlement) = collateral_removed(ctx, now, amount)->Ok_0;
            let swept = sweep(ctx.state, ctx.liquidation_data, ctx.escrow_token_amount, now)->Ok_0;
            &&& eggs_to_sol(swept.state, ctx.state_account_lamports, after.loan.collateral)
                is Ok
            &&& after.loan.borrowed <= lendable(
                eggs_to_sol(
                    swept.state,
                    ctx.state_account_lamports,
                    after.loan.collateral,
                )->Ok_0 as int,
            )
            &&& settlement.released == amount
            &&& after.loan.collateral == ctx.loan.collateral - amount
            &&& after.loan.borrowed == ctx.loan.borrowed
            &&& after.escrow_token_amount == swept.escrow - amount
        }),
{
}

} // verus!

//! The liquidation sweep over several days.

use vstd::prelude::*;
use crate::eggs::context::Settlement;
use crate::eggs::error::EggsError;
use crate::eggs::states::{DailyLoanData, EggsState};
use crate::eggs::utils::{liquidate, sweep};

verus! {

/// The accounts of a liquidation.
#[derive(Debug)]
pub struct LiquidateLoans {
    /// The state of the protocol.
    pub state: EggsState,
    /// Tokens held in escrow for all loans.
    pub escrow_token_amount: u64,
    /// The buckets of the days the sweep has to handle, beginning with the
    /// day it stands on, one day after the other.
    pub daily_loan_data: Vec<DailyLoanData>,
}

/// What a sweep over several days leaves behind.
pub struct SweptThrough {
    pub state: EggsState,
    pub daily: Seq<DailyLoanData>,
    pub escrow: u64,
    /// All collateral that was forfeited and burned.
    pub forfeited: int,
}

/// The sweep over the buckets from index `from` on: one step for each
/// bucket, until the cursor has caught up with `now` or the buckets have run
/// out.
pub open spec fn swept_through(
    state: EggsState,
    daily: Seq<DailyLoanData>,
    escrow: u64,
    now: i64,
    from: int,
) -> Result<SweptThrough, EggsError>
    decreases daily.len() - from,
{
    if from < 0 || from >= daily.len() || state.last_liquidation_date >= now {
        Ok(SweptThrough { state, daily, escrow, forfeited: 0 })
    } else {
        match sweep(state, daily[from], escrow, now) {
            Err(e) => Err(e),
            Ok(step) => match swept_through(
                step.state,
                daily.update(from, step.daily),
                step.escrow,
                now,
                from + 1,
            ) {
                Err(e) => Err(e),
                Ok(rest) => Ok(SweptThrough { forfeited: step.forfeited + rest.forfeited, ..rest }),
            },
        }
    }
}

/// The result of a sweep with `forfeited` more tokens counted.
pub open spec fn with_forfeited(r: Result<SweptThrough, EggsError>, forfeited: int) -> Result<
    SweptThrough,
    EggsError,
> {
    match r {
        Err(e) => Err(e),
        Ok(rest) => Ok(SweptThrough { forfeited: forfeited + rest.forfeited, ..rest }),
    }
}

/// Runs the liquidation sweep at time `now` over the buckets handed in, one
/// day for each, and stops when the cursor is no longer in the past or the
/// buckets have run out. A caller that is several days behind hands in the
/// buckets of all those days, or calls again.
///
/// While the cursor is not in the past nothing changes. A bucket of the
/// wrong day fails with `InvalidParameter`, an escrow that holds less than a
/// bucket's collateral with `ContractBalanceInsufficient`; a failed call
/// changes nothing.
pub fn liquidate_loans(ctx: &mut LiquidateLoans, now: i64) -> (r: Result<Settlement, EggsError>)
    ensures
        match swept_through(
            old(ctx).state,
            old(ctx).daily_loan_data@,
            old(ctx).escrow_token_amount,
            now,
            0,
        ) {
            Ok(swept) => {
                &&& r == Ok::<Settlement, EggsError>(
                    Settlement { forfeited: swept.forfeited as u64, ..Settlement::nothing() },
                )
                &&& final(ctx).state == swept.state
                &&& final(ctx).daily_loan_data@ == swept.daily
                &&& final(ctx).escrow_token_amount == swept.escrow
                &&& swept.forfeited + swept.escrow == old(ctx).escrow_token_amount
            },
            Err(e) => r == Err::<Settlement, EggsError>(e) && *final(ctx) == *old(ctx),
        },
        final(ctx).state.last_price == old(ctx).state.last_price,
        old(ctx).state.wf() ==> final(ctx).state.wf(),
        old(ctx).state.last_liquidation_date >= now ==> {
            &&& r == Ok::<Settlement, EggsError>(Settlement::nothing())
            &&& final(ctx).state == old(ctx).state
            &&& final(ctx).daily_loan_data@ == old(ctx).daily_loan_data@
            &&& final(ctx).escrow_token_amount == old(ctx).escrow_token_amount
        },
{
    let mut state = ctx.state;
    let mut escrow = ctx.escrow_token_amount;
    let mut forfeited: u64 = 0;
    let mut swept: Vec<DailyLoanData> = Vec::new();
    let mut i: usize = 0;
    let ghost mut daily: Seq<DailyLoanData> = ctx.daily_loan_data@;
    while i < ctx.daily_loan_data.len()
        invariant
            *ctx == *old(ctx),
            0 <= i <= ctx.daily_loan_data.len(),
            swept@.len() == i,
            daily.len() == ctx.daily_loan_data@.len(),
            forall|j: int| 0 <= j < i ==> daily[j] == swept@[j],
            forall|j: int| i <= j < daily.len() ==> daily[j] == ctx.daily_loan_data@[j],
            forfeited + escrow == ctx.escrow_token_amount,
            state.last_price == ctx.state.last_price,
            ctx.state.wf() ==> state.wf(),
            ctx.state.last_liquidation_date >= now ==> state == ctx.state && forfeited == 0
                && daily == ctx.daily_loan_data@,
            swept_through(
                ctx.state,
                ctx.daily_loan_data@,
                ctx.escrow_token_amount,
                now,
                0,
            ) == with_forfeited(swept_through(state, daily, escrow, now, i as int), forfeited as int),
        decreases ctx.daily_loan_data.len() - i,
    {
        let mut day = ctx.daily_loan_data[i];
        if state.last_liquidation_date < now {
            let burned = liquidate(&mut state, &mut day, &mut escrow, now)?;
            forfeited = forfeited + burned;
            proof {
                daily = daily.update(i as int, day);
            }
        }
        swept.push(day);
        i += 1;
    }
    ctx.state = state;
    ctx.escrow_token_amount = escrow;
    ctx.daily_loan_data = swept;
    let mut settlement = Settlement::none();
    settlement.forfeited = forfeited;
    Ok(settlement)
}

} // verus!

//! The building blocks of every operation: conversions at the current
//! backing, the interest fee, the day buckets, the liquidation sweep and the
//! safety check.

use vstd::prelude::*;
pub use crate::calendar::get_midnight_timestamp;
pub use crate::dates::date_to_bytes;
use crate::address::Address;
use crate::eggs::error::EggsError;
use crate::eggs::states::{DailyLoanData, EggsState, Loan};
use crate::fees::{interest_fee, interest_fee_of};
use crate::math::low64;
use crate::pricing::{
    leverage, no_trade, no_trade_ceil, price, quote_leverage, quote_no_trade,
    quote_no_trade_ceil, quote_price, quote_trade_buy, quote_trade_sell, trade_buy, trade_sell,
};

verus! {

/// Yearly interest, 3.9 %, in the scale of [`INTEREST_PRECISION`].
pub const YEARLY_RATE: u64 = 39_000_000_000;

/// Flat interest, 0.1 %, in the scale of [`INTEREST_PRECISION`].
pub const FLAT_RATE: u64 = 1_000_000_000;

/// The fixed-point scale of the interest rates.
pub const INTEREST_PRECISION: u64 = 1_000_000_000_000;

/// The backing: what open loans owe plus what the state account holds.
pub open spec fn backing(state: EggsState, lamports: u64) -> int {
    state.total_borrowed + lamports
}

/// The backing, or `ArithmeticOverflow` where it passes 64 bits.
pub fn get_backing(state: &EggsState, state_account_lamports: u64) -> (r: Result<u64, EggsError>)
    ensures
        r == (if backing(*state, state_account_lamports) <= u64::MAX {
            Ok::<u64, EggsError>(backing(*state, state_account_lamports) as u64)
        } else {
            Err::<u64, EggsError>(EggsError::ArithmeticOverflow)
        }),
{
    match state.total_borrowed.checked_add(state_account_lamports) {
        Some(sum) => Ok(sum),
        None => Err(EggsError::ArithmeticOverflow),
    }
}

/// Lamports paid for `eggs_amount` tokens.
pub open spec fn eggs_to_sol(state: EggsState, lamports: u64, eggs_amount: u64) -> Result<
    u64,
    EggsError,
> {
    if backing(state, lamports) > u64::MAX {
        Err(EggsError::ArithmeticOverflow)
    } else if state.total_minted == 0 {
        Err(EggsError::InvalidParameter)
    } else {
        Ok(
            low64(
                trade_sell(eggs_amount as int, state.total_minted as int, backing(state, lamports)),
            ) as u64,
        )
    }
}

/// Tokens minted for `sol_amount` lamports that the state account already
/// holds.
pub open spec fn sol_to_eggs(state: EggsState, lamports: u64, sol_amount: u64) -> Result<
    u64,
    EggsError,
> {
    if backing(state, lamports) > u64::MAX {
        Err(EggsError::ArithmeticOverflow)
    } else if backing(state, lamports) <= sol_amount {
        Err(EggsError::InvalidParameter)
    } else {
        Ok(
            low64(
                trade_buy(sol_amount as int, state.total_minted as int, backing(state, lamports)),
            ) as u64,
        )
    }
}

/// Token value of `sol_amount` lamports, rounded down.
pub open spec fn sol_to_eggs_no_trade(state: EggsState, lamports: u64, sol_amount: u64) -> Result<
    u64,
    EggsError,
> {
    if backing(state, lamports) > u64::MAX {
        Err(EggsError::ArithmeticOverflow)
    } else if backing(state, lamports) == 0 {
        Err(EggsError::InvalidParameter)
    } else {
        Ok(
            low64(
                no_trade(sol_amount as int, state.total_minted as int, backing(state, lamports)),
            ) as u64,
        )
    }
}

/// Token value of `sol_amount` lamports, rounded up.
pub open spec fn sol_to_eggs_no_trade_ceil(
    state: EggsState,
    lamports: u64,
    sol_amount: u64,
) -> Result<u64, EggsError> {
    if backing(state, lamports) > u64::MAX {
        Err(EggsError::ArithmeticOverflow)
    } else if backing(state, lamports) == 0 {
        Err(EggsError::InvalidParameter)
    } else {
        Ok(
            low64(
                no_trade_ceil(
                    sol_amount as int,
                    state.total_minted as int,
                    backing(state, lamports),
                ),
            ) as u64,
        )
    }
}

/// Collateral minted for a leveraged position of `sol_amount` lamports, with
/// `fee` kept out of the backing.
pub open spec fn sol_to_eggs_lev(
    state: EggsState,
    lamports: u64,
    sol_amount: u64,
    fee: u64,
) -> Result<u64, EggsError> {
    if backing(state, lamports) > u64::MAX || backing(state, lamports) < fee {
        Err(EggsError::ArithmeticOverflow)
    } else if backing(state, lamports) == fee {
        Err(EggsError::InvalidParameter)
    } else {
        Ok(
            low64(
                leverage(
                    sol_amount as int,
                    fee as int,
                    state.total_minted as int,
                    backing(state, lamports),
                ),
            ) as u64,
        )
    }
}

/// Lamports paid for `eggs_amount` tokens at the current backing.
/// `InvalidParameter` where no token is outstanding.
pub fn eggs_to_sol_with_account(
    state: &EggsState,
    state_account_lamports: u64,
    eggs_amount: u64,
) -> (r: Result<u64, EggsError>)
    ensures
        r == eggs_to_sol(*state, state_account_lamports, eggs_amount),
{
    let backing = get_backing(state, state_account_lamports)?;
    match quote_trade_sell(eggs_amount, state.total_minted, backing) {
        Some(sol) => Ok(sol),
        None => Err(EggsError::InvalidParameter),
    }
}

/// Tokens minted for `sol_amount` lamports which the state account already
/// holds. `InvalidParameter` where it holds nothing else.
pub fn sol_to_eggs_with_account(
    state: &EggsState,
    state_account_lamports: u64,
    sol_amount: u64,
) -> (r: Result<u64, EggsError>)
    ensures
        r == sol_to_eggs(*state, state_account_lamports, sol_amount),
{
    let backing = get_backing(state, state_account_lamports)?;
    match quote_trade_buy(sol_amount, state.total_minted, backing) {
        Some(eggs) => Ok(eggs),
        None => Err(EggsError::InvalidParameter),
    }
}

/// Token value of `sol_amount` lamports, rounded down. `InvalidParameter`
/// where the backing is empty.
pub fn sol_to_eggs_no_trade_with_account(
    state: &EggsState,
    state_account_lamports: u64,
    sol_amount: u64,
) -> (r: Result<u64, EggsError>)
    ensures
        r == sol_to_eggs_no_trade(*state, state_account_lamports, sol_amount),
{
    let backing = get_backing(state, state_account_lamports)?;
    match quote_no_trade(sol_amount, state.total_minted, backing) {
        Some(eggs) => Ok(eggs),
        None => Err(EggsError::InvalidParameter),
    }
}

/// Token value of `sol_amount` lamports, rounded up. `InvalidParameter`
/// where the backing is empty.
pub fn sol_to_eggs_no_trade_ceil_with_account(
    state: &EggsState,
    state_account_lamports: u64,
    sol_amount: u64,
) -> (r: Result<u64, EggsError>)
    ensures
        r == sol_to_eggs_no_trade_ceil(*state, state_account_lamports, sol_amount),
{
    let backing = get_backing(state, state_account_lamports)?;
    match quote_no_trade_ceil(sol_amount, state.total_minted, backing) {
        Some(eggs) => Ok(eggs),
        None => Err(EggsError::InvalidParameter),
    }
}

/// Collateral minted for a leveraged position. `ArithmeticOverflow` where
/// `fee` exceeds the backing, `InvalidParameter` where it equals it.
pub fn sol_to_eggs_lev_with_account(
    state: &EggsState,
    state_account_lamports: u64,
    sol_amount: u64,
    fee: u64,
) -> (r: Result<u64, EggsError>)
    ensures
        r == sol_to_eggs_lev(*state, state_account_lamports, sol_amount, fee),
{
    let backing = get_backing(state, state_account_lamports)?;
    if backing < fee {
        return Err(EggsError::ArithmeticOverflow);
    }
    match quote_leverage(sol_amount, fee, state.total_minted, backing) {
        Some(eggs) => Ok(eggs),
        None => Err(EggsError::InvalidParameter),
    }
}

/// The interest on `amount` lamports for `number_of_days` days.
pub open spec fn interest(amount: u64, number_of_days: u64) -> int {
    interest_fee(
        amount as int,
        number_of_days as int,
        YEARLY_RATE as int,
        FLAT_RATE as int,
        INTEREST_PRECISION as int,
    )
}

/// The interest for less than 366 days is at most 40 thousandths of the
/// amount.
pub proof fn lemma_interest(amount: u64, number_of_days: u64)
    requires
        number_of_days < 366,
    ensures
        0 <= interest(amount, number_of_days) <= crate::math::mul_div(amount as int, 40, 1000)
            <= amount,
{
    crate::fees::lemma_interest_bounded(
        amount as int,
        number_of_days as int,
        YEARLY_RATE as int,
        FLAT_RATE as int,
        INTEREST_PRECISION as int,
    );
}

/// The interest on a loan of `amount` lamports for `number_of_days` days:
/// 3.9 % a year in proportion to the term, plus 0.1 %. `LoanTooLong` for a
/// term of 366 days or more.
pub fn get_interest_fee(amount: u64, number_of_days: u64) -> (r: Result<u64, EggsError>)
    ensures
        r == (if number_of_days < 366 {
            Ok::<u64, EggsError>(interest(amount, number_of_days) as u64)
        } else {
            Err::<u64, EggsError>(EggsError::LoanTooLong)
        }),
        number_of_days < 366 ==> 0 <= interest(amount, number_of_days) <= amount,
{
    match interest_fee_of(amount, number_of_days, YEARLY_RATE, FLAT_RATE, INTEREST_PRECISION) {
        Some(fee) => Ok(fee),
        None => Err(EggsError::LoanTooLong),
    }
}

/// Whether the loan has run out at `current_time`.
pub fn is_loan_expired(loan: &Loan, current_time: i64) -> (expired: bool)
    ensures
        expired == loan.expired_at(current_time as int),
{
    loan.end_date < current_time
}

/// The state and the bucket after `borrowed` and `collateral` were entered,
/// or `None` where a sum leaves 64 bits.
pub open spec fn loans_added(
    state: EggsState,
    daily: DailyLoanData,
    borrowed: u64,
    collateral: u64,
) -> Option<(EggsState, DailyLoanData)> {
    if daily.borrowed + borrowed > u64::MAX || daily.collateral + collateral > u64::MAX
        || state.total_borrowed + borrowed > u64::MAX || state.total_collateral + collateral
        > u64::MAX {
        None
    } else {
        Some(
            (
                EggsState {
                    total_borrowed: (state.total_borrowed + borrowed) as u64,
                    total_collateral: (state.total_collateral + collateral) as u64,
                    ..state
                },
                DailyLoanData {
                    borrowed: (daily.borrowed + borrowed) as u64,
                    collateral: (daily.collateral + collateral) as u64,
                    ..daily
                },
            ),
        )
    }
}

/// `a - b`, stopping at zero.
pub open spec fn minus(a: u64, b: u64) -> u64 {
    if a >= b {
        (a - b) as u64
    } else {
        0
    }
}

/// The state and the bucket after `borrowed` and `collateral` were taken
/// out; no amount falls below zero.
pub open spec fn loans_removed(
    state: EggsState,
    daily: DailyLoanData,
    borrowed: u64,
    collateral: u64,
) -> (EggsState, DailyLoanData) {
    (
        EggsState {
            total_borrowed: minus(state.total_borrowed, borrowed),
            total_collateral: minus(state.total_collateral, collateral),
            ..state
        },
        DailyLoanData {
            borrowed: minus(daily.borrowed, borrowed),
            collateral: minus(daily.collateral, collateral),
            ..daily
        },
    )
}

/// Enters `borrowed` and `collateral` in a day's bucket and in the totals.
/// `ArithmeticOverflow`, with nothing changed, where a sum leaves 64 bits.
pub fn add_loans_by_date(
    state: &mut EggsState,
    daily_loan_data: &mut DailyLoanData,
    borrowed: u64,
    collateral: u64,
) -> (r: Result<(), EggsError>)
    ensures
        match loans_added(*old(state), *old(daily_loan_data), borrowed, collateral) {
            Some((s, d)) => r is Ok && *final(state) == s && *final(daily_loan_data) == d,
            None => r == Err::<(), EggsError>(EggsError::ArithmeticOverflow) && *final(state)
                == *old(state) && *final(daily_loan_data) == *old(daily_loan_data),
        },
{
    let day_borrowed = daily_loan_data.borrowed.checked_add(borrowed);
    let day_collateral = daily_loan_data.collateral.checked_add(collateral);
    let total_borrowed = state.total_borrowed.checked_add(borrowed);
    let total_collateral = state.total_collateral.checked_add(collateral);
    match (day_borrowed, day_collateral, total_borrowed, total_collateral) {
        (Some(db), Some(dc), Some(tb), Some(tc)) => {
            daily_loan_data.borrowed = db;
            daily_loan_data.collateral = dc;
            state.total_borrowed = tb;
            state.total_collateral = tc;
            Ok(())
        },
        _ => Err(EggsError::ArithmeticOverflow),
    }
}

/// Takes `borrowed` and `collateral` out of a day's bucket and out of the
/// totals. No amount falls below zero.
pub fn sub_loans_by_date(
    state: &mut EggsState,
    daily_loan_data: &mut DailyLoanData,
    borrowed: u64,
    collateral: u64,
) -> (r: Result<(), EggsError>)
    ensures
        r is Ok,
        (*final(state), *final(daily_loan_data)) == loans_removed(
            *old(state),
            *old(daily_loan_data),
            borrowed,
            collateral,
        ),
{
    daily_loan_data.borrowed = daily_loan_data.borrowed.saturating_sub(borrowed);
    daily_loan_data.collateral = daily_loan_data.collateral.saturating_sub(collateral);
    state.total_borrowed = state.total_borrowed.saturating_sub(borrowed);
    state.total_collateral = state.total_collateral.saturating_sub(collateral);
    Ok(())
}

/// What one step of the liquidation sweep leaves behind.
pub struct Swept {
    /// The state after the step.
    pub state: EggsState,
    /// The bucket of the day that was handled.
    pub daily: DailyLoanData,
    /// Tokens left in escrow.
    pub escrow: u64,
    /// Collateral that was forfeited and burned.
    pub forfeited: u64,
}

/// One step of the liquidation sweep at time `now`. While the cursor is not
/// in the past nothing happens. Else the bucket of the cursor's day is
/// emptied: its collateral is burned out of escrow and out of the supply, its
/// debt is written off, and the cursor moves on by one day.
pub open spec fn sweep(state: EggsState, daily: DailyLoanData, escrow: u64, now: i64) -> Result<
    Swept,
    EggsError,
> {
    if state.last_liquidation_date >= now {
        Ok(Swept { state, daily, escrow, forfeited: 0 })
    } else if !daily.serves(state.last_liquidation_date as int) {
        Err(EggsError::InvalidParameter)
    } else if escrow < daily.collateral {
        Err(EggsError::ContractBalanceInsufficient)
    } else if state.total_minted < daily.collateral || state.last_liquidation_date + 86400
        > i64::MAX {
        Err(EggsError::ArithmeticOverflow)
    } else {
        Ok(
            Swept {
                state: EggsState {
                    total_borrowed: minus(state.total_borrowed, daily.borrowed),
                    total_collateral: minus(state.total_collateral, daily.collateral),
                    total_minted: (state.total_minted - daily.collateral) as u64,
                    last_liquidation_date: (state.last_liquidation_date + 86400) as i64,
                    ..state
                },
                daily: DailyLoanData { borrowed: 0, collateral: 0, ..daily },
                escrow: (escrow - daily.collateral) as u64,
                forfeited: daily.collateral,
            },
        )
    }
}

/// Runs one step of the liquidation sweep and returns the collateral that
/// was burned. `daily_loan_data` is the bucket of the day the cursor stands
/// on. On an error nothing is changed.
pub fn liquidate(
    state: &mut EggsState,
    daily_loan_data: &mut DailyLoanData,
    escrow_token_amount: &mut u64,
    now: i64,
) -> (r: Result<u64, EggsError>)
    ensures
        match sweep(*old(state), *old(daily_loan_data), *old(escrow_token_amount), now) {
            Ok(swept) => {
                &&& r == Ok::<u64, EggsError>(swept.forfeited)
                &&& *final(state) == swept.state
                &&& *final(daily_loan_data) == swept.daily
                &&& *final(escrow_token_amount) == swept.escrow
            },
            Err(e) => {
                &&& r == Err::<u64, EggsError>(e)
                &&& *final(state) == *old(state)
                &&& *final(daily_loan_data) == *old(daily_loan_data)
                &&& *final(escrow_token_amount) == *old(escrow_token_amount)
            },
        },
        old(state).last_liquidation_date >= now ==> {
            &&& r == Ok::<u64, EggsError>(0)
            &&& *final(state) == *old(state)
            &&& *final(daily_loan_data) == *old(daily_loan_data)
            &&& *final(escrow_token_amount) == *old(escrow_token_amount)
        },
        final(state).last_price == old(state).last_price,
        old(state).wf() ==> final(state).wf(),
{
    if state.last_liquidation_date >= now {
        return Ok(0);
    }
    let cursor = state.last_liquidation_date;
    let borrowed = daily_loan_data.borrowed;
    let collateral = daily_loan_data.collateral;
    if daily_loan_data.date != cursor && !(borrowed == 0 && collateral == 0) {
        return Err(EggsError::InvalidParameter);
    }
    if *escrow_token_amount < collateral {
        return Err(EggsError::ContractBalanceInsufficient);
    }
    if state.total_minted < collateral || cursor > i64::MAX - 86400 {
        return Err(EggsError::ArithmeticOverflow);
    }
    *escrow_token_amount = *escrow_token_amount - collateral;
    state.total_collateral = state.total_collateral.saturating_sub(collateral);
    state.total_borrowed = state.total_borrowed.saturating_sub(borrowed);
    state.total_minted = state.total_minted - collateral;
    state.last_liquidation_date = cursor + 86400;
    daily_loan_data.borrowed = 0;
    daily_loan_data.collateral = 0;
    Ok(collateral)
}

/// The safety check on the books as an operation leaves them: the escrow
/// covers the collateral of all loans, and the price has not fallen. The
/// result is the state with the new price recorded.
pub open spec fn checked_state(state: EggsState, lamports: u64, escrow: u64) -> Result<
    EggsState,
    EggsError,
> {
    if backing(state, lamports) > u64::MAX {
        Err(EggsError::ArithmeticOverflow)
    } else if state.total_minted == 0 {
        Err(EggsError::InvalidParameter)
    } else if escrow < state.total_collateral {
        Err(EggsError::ContractBalanceInsufficient)
    } else if new_price(state, lamports) < state.last_price {
        Err(EggsError::PriceDecrease)
    } else {
        Ok(EggsState { last_price: new_price(state, lamports), ..state })
    }
}

/// The price at the current backing and supply, in 64 bits.
pub open spec fn new_price(state: EggsState, lamports: u64) -> u64 {
    low64(price(backing(state, lamports), state.total_minted as int)) as u64
}

/// The safety check that ends every operation. `state_account_lamports` and
/// `escrow_token_amount` are the balances as the operation leaves them.
/// Fails with `ContractBalanceInsufficient` where the escrow holds less than
/// the collateral of all loans, with `PriceDecrease` where the price is
/// below the last one recorded, and with `InvalidParameter` where no token
/// is outstanding. On success the new price is recorded; on an error the
/// state is unchanged.
pub fn safety_check_with_account(
    state: &mut EggsState,
    state_account_lamports: u64,
    escrow_token_amount: u64,
) -> (r: Result<(), EggsError>)
    ensures
        match checked_state(*old(state), state_account_lamports, escrow_token_amount) {
            Ok(s) => r is Ok && *final(state) == s,
            Err(e) => r == Err::<(), EggsError>(e) && *final(state) == *old(state),
        },
        r is Ok ==> final(state).last_price >= old(state).last_price,
        old(state).wf() ==> final(state).wf(),
{
    let backing = get_backing(state, state_account_lamports)?;
    let price = match quote_price(backing, state.total_minted) {
        Some(p) => p,
        None => {
            return Err(EggsError::InvalidParameter);
        },
    };
    if escrow_token_amount < state.total_collateral {
        return Err(EggsError::ContractBalanceInsufficient);
    }
    if price < state.last_price {
        return Err(EggsError::PriceDecrease);
    }
    state.last_price = price;
    Ok(())
}

/// The records after a loan was opened: the loan holds the new terms, and
/// its debt and collateral are entered in the bucket of its last day.
pub open spec fn loan_created(
    state: EggsState,
    daily: DailyLoanData,
    end_date: i64,
    collateral: u64,
    borrowed: u64,
    number_of_days: u64,
    user: Address,
) -> Result<(EggsState, Loan, DailyLoanData), EggsError> {
    if !daily.serves(end_date as int) {
        Err(EggsError::InvalidParameter)
    } else {
        match loans_added(state, DailyLoanData { date: end_date, ..daily }, borrowed, collateral) {
            Some((s, d)) => Ok(
                (s, Loan { user, collateral, borrowed, end_date, number_of_days }, d),
            ),
            None => Err(EggsError::ArithmeticOverflow),
        }
    }
}

/// Opens a loan: writes its terms and enters it in the bucket of its last
/// day. `InvalidParameter` where the bucket belongs to another day,
/// `ArithmeticOverflow` where a total leaves 64 bits. On an error nothing is
/// changed.
pub fn process_loan_creation(
    state: &mut EggsState,
    loan: &mut Loan,
    daily_loan_data: &mut DailyLoanData,
    end_date: i64,
    collateral: u64,
    borrowed: u64,
    number_of_days: u64,
    user: Address,
) -> (r: Result<(), EggsError>)
    ensures
        match loan_created(
            *old(state),
            *old(daily_loan_data),
            end_date,
            collateral,
            borrowed,
            number_of_days,
            user,
        ) {
            Ok((s, l, d)) => {
                &&& r is Ok
                &&& *final(state) == s
                &&& *final(loan) == l
                &&& *final(daily_loan_data) == d
            },
            Err(e) => {
                &&& r == Err::<(), EggsError>(e)
                &&& *final(state) == *old(state)
                &&& *final(loan) == *old(loan)
                &&& *final(daily_loan_data) == *old(daily_loan_data)
            },
        },
{
    if daily_loan_data.date != end_date && !(daily_loan_data.borrowed == 0
        && daily_loan_data.collateral == 0) {
        return Err(EggsError::InvalidParameter);
    }
    let mut day = *daily_loan_data;
    day.date = end_date;
    add_loans_by_date(state, &mut day, borrowed, collateral)?;
    *daily_loan_data = day;
    loan.user = user;
    loan.collateral = collateral;
    loan.borrowed = borrowed;
    loan.end_date = end_date;
    loan.number_of_days = number_of_days;
    Ok(())
}

/// Pays `repay_amount` off a loan, in the loan, in its bucket and in the
/// totals. No amount falls below zero.
pub fn process_loan_repayment(
    state: &mut EggsState,
    loan: &mut Loan,
    daily_loan_data: &mut DailyLoanData,
    repay_amount: u64,
) -> (r: Result<(), EggsError>)
    ensures
        r is Ok,
        *final(loan) == (Loan { borrowed: minus(old(loan).borrowed, repay_amount), ..*old(loan) }),
        (*final(state), *final(daily_loan_data)) == loans_removed(
            *old(state),
            *old(daily_loan_data),
            repay_amount,
            0,
        ),
{
    loan.borrowed = loan.borrowed.saturating_sub(repay_amount);
    sub_loans_by_date(state, daily_loan_data, repay_amount, 0)
}

/// The collateral of a loan after a change by `collateral_change` tokens,
/// kept within 64 bits.
pub open spec fn adjusted_collateral(collateral: u64, collateral_change: i64) -> u64 {
    if collateral + collateral_change > u64::MAX {
        u64::MAX
    } else if collateral + collateral_change < 0 {
        0
    } else {
        (collateral + collateral_change) as u64
    }
}

/// The records after the collateral of a loan changed by `collateral_change`
/// tokens: added where it is positive, released where it is negative.
pub open spec fn collateral_adjusted(
    state: EggsState,
    loan: Loan,
    daily: DailyLoanData,
    collateral_change: i64,
) -> Result<(EggsState, Loan, DailyLoanData), EggsError> {
    let adjusted = Loan {
        collateral: adjusted_collateral(loan.collateral, collateral_change),
        ..loan
    };
    if collateral_change > 0 {
        match loans_added(state, daily, 0, collateral_change as u64) {
            Some((s, d)) => Ok((s, adjusted, d)),
            None => Err(EggsError::ArithmeticOverflow),
        }
    } else if collateral_change < 0 {
        let (s, d) = loans_removed(state, daily, 0, (-collateral_change) as u64);
        Ok((s, adjusted, d))
    } else {
        Ok((state, loan, daily))
    }
}

/// Adds collateral to a loan (`collateral_change > 0`) or releases some
/// (`collateral_change < 0`), in the loan, in its bucket and in the totals.
/// On an error nothing is changed.
pub fn process_collateral_adjustment(
    state: &mut EggsState,
    loan: &mut Loan,
    daily_loan_data: &mut DailyLoanData,
    collateral_change: i64,
) -> (r: Result<(), EggsError>)
    ensures
        match collateral_adjusted(*old(state), *old(loan), *old(daily_loan_data), collateral_change) {
            Ok((s, l, d)) => {
                &&& r is Ok
                &&& *final(state) == s
                &&& *final(loan) == l
                &&& *final(daily_loan_data) == d
            },
            Err(e) => {
                &&& r == Err::<(), EggsError>(e)
                &&& *final(state) == *old(state)
                &&& *final(loan) == *old(loan)
                &&& *final(daily_loan_data) == *old(daily_loan_data)
            },
        },
{
    if collateral_change > 0 {
        let added: u64 = collateral_change as u64;
        add_loans_by_date(state, daily_loan_data, 0, added)?;
        loan.collateral = loan.collateral.saturating_add(added);
        Ok(())
    } else if collateral_change < 0 {
        let removed: u64 = (-(collateral_change as i128)) as u64;
        loan.collateral = loan.collateral.saturating_sub(removed);
        sub_loans_by_date(state, daily_loan_data, 0, removed)
    } else {
        Ok(())
    }
}

/// Closes a loan: takes what it owes and holds out of its bucket and out of
/// the totals, and clears the loan.
pub fn close_loan(state: &mut EggsState, loan: &mut Loan, daily_loan_data: &mut DailyLoanData) -> (r:
    Result<(), EggsError>)
    ensures
        r is Ok,
        *final(loan) == old(loan).cleared(),
        (*final(state), *final(daily_loan_data)) == loans_removed(
            *old(state),
            *old(daily_loan_data),
            old(loan).borrowed,
            old(loan).collateral,
        ),
{
    let borrowed = loan.borrowed;
    let collateral = loan.collateral;
    loan.borrowed = 0;
    loan.collateral = 0;
    loan.end_date = 0;
    loan.number_of_days = 0;
    sub_loans_by_date(state, daily_loan_data, borrowed, collateral)
}

/// What a prolongation leaves behind.
pub struct Extended {
    pub state: EggsState,
    pub loan: Loan,
    /// The bucket of the day the loan used to end on.
    pub old_daily: DailyLoanData,
    /// The bucket of the day the loan ends on now.
    pub new_daily: DailyLoanData,
}

/// The records after a loan was prolonged by `additional_days` days: the
/// loan leaves the bucket of its old last day and enters that of the new
/// one.
pub open spec fn loan_extended(
    state: EggsState,
    loan: Loan,
    old_daily: DailyLoanData,
    new_daily: DailyLoanData,
    additional_days: u64,
) -> Result<Extended, EggsError> {
    let new_end_date = loan.end_date + additional_days * 86400;
    if additional_days == 0 {
        Err(EggsError::InvalidParameter)
    } else if new_end_date > i64::MAX || loan.number_of_days + additional_days > u64::MAX {
        Err(EggsError::ArithmeticOverflow)
    } else if !new_daily.serves(new_end_date) {
        Err(EggsError::InvalidParameter)
    } else {
        let (removed_state, removed_daily) = loans_removed(
            state,
            old_daily,
            loan.borrowed,
            loan.collateral,
        );
        match loans_added(
            removed_state,
            DailyLoanData { date: new_end_date as i64, ..new_daily },
            loan.borrowed,
            loan.collateral,
        ) {
            Some((s, d)) => Ok(
                Extended {
                    state: s,
                    loan: Loan {
                        end_date: new_end_date as i64,
                        number_of_days: (loan.number_of_days + additional_days) as u64,
                        ..loan
                    },
                    old_daily: removed_daily,
                    new_daily: d,
                },
            ),
            None => Err(EggsError::ArithmeticOverflow),
        }
    }
}

/// Prolongs a loan by `additional_days` days and moves it from the bucket
/// of its old last day to that of the new one. `InvalidParameter` for no
/// days at all or a bucket of another day, `ArithmeticOverflow` where a date
/// or a sum leaves its range. On an error nothing is changed.
pub fn extend_loan(
    state: &mut EggsState,
    loan: &mut Loan,
    old_daily_loan_data: &mut DailyLoanData,
    new_daily_loan_data: &mut DailyLoanData,
    additional_days: u64,
) -> (r: Result<(), EggsError>)
    ensures
        match loan_extended(
            *old(state),
            *old(loan),
            *old(old_daily_loan_data),
            *old(new_daily_loan_data),
            additional_days,
        ) {
            Ok(extended) => {
                &&& r is Ok
                &&& *final(state) == extended.state
                &&& *final(loan) == extended.loan
                &&& *final(old_daily_loan_data) == extended.old_daily
                &&& *final(new_daily_loan_data) == extended.new_daily
            },
            Err(e) => {
                &&& r == Err::<(), EggsError>(e)
                &&& *final(state) == *old(state)
                &&& *final(loan) == *old(loan)
                &&& *final(old_daily_loan_data) == *old(old_daily_loan_data)
                &&& *final(new_daily_loan_data) == *old(new_daily_loan_data)
            },
        },
{
    if additional_days == 0 {
        return Err(EggsError::InvalidParameter);
    }
    let wide_end: i128 = (loan.end_date as i128) + (additional_days as i128) * 86400;
    let number_of_days = loan.number_of_days.checked_add(additional_days);
    if wide_end > i64::MAX as i128 || number_of_days.is_none() {
        return Err(EggsError::ArithmeticOverflow);
    }
    let new_end_date: i64 = wide_end as i64;
    if new_daily_loan_data.date != new_end_date && !(new_daily_loan_data.borrowed == 0
        && new_daily_loan_data.collateral == 0) {
        return Err(EggsError::InvalidParameter);
    }
    let mut moved_state = *state;
    let mut old_day = *old_daily_loan_data;
    let mut new_day = *new_daily_loan_data;
    new_day.date = new_end_date;
    let _ = sub_loans_by_date(&mut moved_state, &mut old_day, loan.borrowed, loan.collateral);
    add_loans_by_date(&mut moved_state, &mut new_day, loan.borrowed, loan.collateral)?;
    *state = moved_state;
    *old_daily_loan_data = old_day;
    *new_daily_loan_data = new_day;
    loan.end_date = new_end_date;
    loan.number_of_days = number_of_days.unwrap();
    Ok(())
}

} // verus!

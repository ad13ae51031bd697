//! The interest fee, the day buckets and the liquidation sweep.

use vstd::prelude::*;
pub use crate::calendar::{get_date_from_timestamp, get_midnight_timestamp};
use crate::calendar::day_start;
use crate::dates::{date_string, names_day};
use crate::fees::{interest_fee, interest_fee_of};
use crate::mushi_program::constants::{FLAT_RATE, INTEREST_PRECISION, YEARLY_RATE};
use crate::mushi_program::error::MushiProgramError;
use crate::mushi_program::state::{DailyStats, GlobalStats};

verus! {

/// The interest on `amount` base units for `number_of_days` days.
pub open spec fn interest(amount: u64, number_of_days: u64) -> int {
    interest_fee(
        amount as int,
        number_of_days as int,
        YEARLY_RATE as int,
        FLAT_RATE as int,
        INTEREST_PRECISION as int,
    )
}

/// The interest on a loan of `amount` base units for `number_of_days` days:
/// 3.9 % a year in proportion to the term, plus 0.1 %. No loan runs for 366
/// days or more.
pub fn get_interest_fee(amount: u64, number_of_days: u64) -> (fee: u64)
    requires
        number_of_days < 366,
    ensures
        fee == interest(amount, number_of_days),
        fee <= amount,
{
    match interest_fee_of(amount, number_of_days, YEARLY_RATE, FLAT_RATE, INTEREST_PRECISION) {
        Some(fee) => fee,
        None => 0,
    }
}

/// The ledger and the bucket after `borrowed` and `collateral` were
/// entered, or `None` where a sum leaves 64 bits.
pub open spec fn loans_added(
    global: GlobalStats,
    daily: DailyStats,
    borrowed: u64,
    collateral: u64,
) -> Option<(GlobalStats, DailyStats)> {
    if daily.borrowed + borrowed > u64::MAX || daily.collateral + collateral > u64::MAX
        || global.total_borrowed + borrowed > u64::MAX || global.total_collateral + collateral
        > u64::MAX {
        None
    } else {
        Some(
            (
                GlobalStats {
                    total_borrowed: (global.total_borrowed + borrowed) as u64,
                    total_collateral: (global.total_collateral + collateral) as u64,
                    ..global
                },
                DailyStats {
                    borrowed: (daily.borrowed + borrowed) as u64,
                    collateral: (daily.collateral + collateral) as u64,
                    ..daily
                },
            ),
        )
    }
}

/// The ledger and the bucket after `borrowed` and `collateral` were taken
/// out, or `None` where one of them holds less.
pub open spec fn loans_removed(
    global: GlobalStats,
    daily: DailyStats,
    borrowed: u64,
    collateral: u64,
) -> Option<(GlobalStats, DailyStats)> {
    if daily.borrowed < borrowed || daily.collateral < collateral || global.total_borrowed
        < borrowed || global.total_collateral < collateral {
        None
    } else {
        Some(
            (
                GlobalStats {
                    total_borrowed: (global.total_borrowed - borrowed) as u64,
                    total_collateral: (global.total_collateral - collateral) as u64,
                    ..global
                },
                DailyStats {
                    borrowed: (daily.borrowed - borrowed) as u64,
                    collateral: (daily.collateral - collateral) as u64,
                    ..daily
                },
            ),
        )
    }
}

/// Enters `borrowed` and `collateral` in a day's bucket and in the totals.
/// `ArithmeticOverflow`, with nothing changed, where a sum leaves 64 bits.
pub fn add_loans_by_date(
    global_state: &mut GlobalStats,
    daily_state: &mut DailyStats,
    borrowed: u64,
    collateral: u64,
) -> (r: Result<(), MushiProgramError>)
    ensures
        match loans_added(*old(global_state), *old(daily_state), borrowed, collateral) {
            Some((g, d)) => r is Ok && *final(global_state) == g && *final(daily_state) == d,
            None => {
                &&& r == Err::<(), MushiProgramError>(MushiProgramError::ArithmeticOverflow)
                &&& *final(global_state) == *old(global_state)
                &&& *final(daily_state) == *old(daily_state)
            },
        },
{
    let day_borrowed = daily_state.borrowed.checked_add(borrowed);
    let day_collateral = daily_state.collateral.checked_add(collateral);
    let total_borrowed = global_state.total_borrowed.checked_add(borrowed);
    let total_collateral = global_state.total_collateral.checked_add(collateral);
    match (day_borrowed, day_collateral, total_borrowed, total_collateral) {
        (Some(db), Some(dc), Some(tb), Some(tc)) => {
            daily_state.borrowed = db;
            daily_state.collateral = dc;
            global_state.total_borrowed = tb;
            global_state.total_collateral = tc;
            Ok(())
        },
        _ => Err(MushiProgramError::ArithmeticOverflow),
    }
}

/// Takes `borrowed` and `collateral` out of a day's bucket and out of the
/// totals. `ArithmeticOverflow`, with nothing changed, where one of them
/// holds less.
pub fn sub_loans_by_date(
    global_state: &mut GlobalStats,
    daily_state: &mut DailyStats,
    borrowed: u64,
    collateral: u64,
) -> (r: Result<(), MushiProgramError>)
    ensures
        match loans_removed(*old(global_state), *old(daily_state), borrowed, collateral) {
            Some((g, d)) => r is Ok && *final(global_state) == g && *final(daily_state) == d,
            None => {
                &&& r == Err::<(), MushiProgramError>(MushiProgramError::ArithmeticOverflow)
                &&& *final(global_state) == *old(global_state)
                &&& *final(daily_state) == *old(daily_state)
            },
        },
{
    let day_borrowed = daily_state.borrowed.checked_sub(borrowed);
    let day_collateral = daily_state.collateral.checked_sub(collateral);
    let total_borrowed = global_state.total_borrowed.checked_sub(borrowed);
    let total_collateral = global_state.total_collateral.checked_sub(collateral);
    match (day_borrowed, day_collateral, total_borrowed, total_collateral) {
        (Some(db), Some(dc), Some(tb), Some(tc)) => {
            daily_state.borrowed = db;
            daily_state.collateral = dc;
            global_state.total_borrowed = tb;
            global_state.total_collateral = tc;
            Ok(())
        },
        _ => Err(MushiProgramError::ArithmeticOverflow),
    }
}

/// `a - b`, stopping at zero.
pub open spec fn minus(a: u64, b: u64) -> u64 {
    if a >= b {
        (a - b) as u64
    } else {
        0
    }
}

/// What one step of the liquidation sweep leaves behind.
pub struct Swept {
    /// The ledger after the step.
    pub global: GlobalStats,
    /// The bucket of the day that was handled.
    pub daily: DailyStats,
    /// Tokens left in the vault.
    pub token_vault: u64,
    /// Collateral that was forfeited and burned.
    pub forfeited: u64,
}

/// One step of the liquidation sweep at time `now`. While the cursor is not
/// in the past nothing happens. Else the bucket of the cursor's day is
/// emptied: its collateral is burned out of the vault and out of the supply,
/// its debt is written off, and the cursor moves on by one day.
pub open spec fn sweep(global: GlobalStats, daily: DailyStats, token_vault: u64, now: i64) -> Result<
    Swept,
    MushiProgramError,
> {
    if global.last_liquidation_date >= now {
        Ok(Swept { global, daily, token_vault, forfeited: 0 })
    } else if !daily.serves(global.last_liquidation_date as int) {
        Err(MushiProgramError::InvalidDailyStatsAccount)
    } else if token_vault < daily.collateral {
        Err(MushiProgramError::SafetyCheckCollateralFailed)
    } else if global.token_supply < daily.collateral || global.last_liquidation_date + 86400
        > i64::MAX {
        Err(MushiProgramError::ArithmeticOverflow)
    } else {
        Ok(
            Swept {
                global: GlobalStats {
                    total_borrowed: minus(global.total_borrowed, daily.borrowed),
                    total_collateral: minus(global.total_collateral, daily.collateral),
                    token_supply: (global.token_supply - daily.collateral) as u64,
                    last_liquidation_date: (global.last_liquidation_date + 86400) as i64,
                    ..global
                },
                daily: DailyStats { borrowed: 0, collateral: 0, ..daily },
                token_vault: (token_vault - daily.collateral) as u64,
                forfeited: daily.collateral,
            },
        )
    }
}

/// Runs one step of the liquidation sweep and returns the collateral that
/// was burned. `last_liquidation_date_state` is the bucket of the day the
/// cursor stands on. While the cursor is not in the past nothing changes;
/// on an error nothing changes either.
pub fn liquidate(
    last_liquidation_date_state: &mut DailyStats,
    global_state: &mut GlobalStats,
    token_vault_amount: &mut u64,
    now: i64,
) -> (r: Result<u64, MushiProgramError>)
    ensures
        match sweep(
            *old(global_state),
            *old(last_liquidation_date_state),
            *old(token_vault_amount),
            now,
        ) {
            Ok(swept) => {
                &&& r == Ok::<u64, MushiProgramError>(swept.forfeited)
                &&& *final(global_state) == swept.global
                &&& *final(last_liquidation_date_state) == swept.daily
                &&& *final(token_vault_amount) == swept.token_vault
            },
            Err(e) => {
                &&& r == Err::<u64, MushiProgramError>(e)
                &&& *final(global_state) == *old(global_state)
                &&& *final(last_liquidation_date_state) == *old(last_liquidation_date_state)
                &&& *final(token_vault_amount) == *old(token_vault_amount)
            },
        },
        old(global_state).last_liquidation_date >= now ==> {
            &&& r == Ok::<u64, MushiProgramError>(0)
            &&& *final(global_state) == *old(global_state)
            &&& *final(last_liquidation_date_state) == *old(last_liquidation_date_state)
            &&& *final(token_vault_amount) == *old(token_vault_amount)
        },
        final(global_state).last_price == old(global_state).last_price,
        old(global_state).wf() ==> final(global_state).wf(),
{
    if global_state.last_liquidation_date >= now {
        return Ok(0);
    }
    let cursor = global_state.last_liquidation_date;
    let borrowed = last_liquidation_date_state.borrowed;
    let collateral = last_liquidation_date_state.collateral;
    if last_liquidation_date_state.date != cursor && !(borrowed == 0 && collateral == 0) {
        return Err(MushiProgramError::InvalidDailyStatsAccount);
    }
    if *token_vault_amount < collateral {
        return Err(MushiProgramError::SafetyCheckCollateralFailed);
    }
    if global_state.token_supply < collateral || cursor > i64::MAX - 86400 {
        return Err(MushiProgramError::ArithmeticOverflow);
    }
    *token_vault_amount = *token_vault_amount - collateral;
    global_state.total_collateral = global_state.total_collateral.saturating_sub(collateral);
    global_state.total_borrowed = global_state.total_borrowed.saturating_sub(borrowed);
    global_state.token_supply = global_state.token_supply - collateral;
    global_state.last_liquidation_date = cursor + 86400;
    last_liquidation_date_state.borrowed = 0;
    last_liquidation_date_state.collateral = 0;
    Ok(collateral)
}

/// The date of the day that holds `timestamp`, in the form `2024-02-29`:
/// the text that names the bucket of that day. `InvalidInput` for a time
/// before 1970.
pub fn get_date_string_from_timestamp(timestamp: i64) -> (r: Result<String, MushiProgramError>)
    ensures
        r is Ok <==> timestamp >= 0,
        r matches Err(e) ==> e == MushiProgramError::InvalidInput,
        r matches Ok(text) ==> names_day(text@, day_start(timestamp as int) / 86400),
{
    match date_string(timestamp) {
        Some(text) => Ok(text),
        None => Err(MushiProgramError::InvalidInput),
    }
}

/// The text that names the bucket of the day the liquidation sweep stands
/// on.
pub fn get_liquidation_date_string(last_liquidation_date: i64) -> (r: Result<
    String,
    MushiProgramError,
>)
    ensures
        r is Ok <==> last_liquidation_date >= 0,
        r matches Err(e) ==> e == MushiProgramError::InvalidInput,
        r matches Ok(text) ==> names_day(
            text@,
            day_start(last_liquidation_date as int) / 86400,
        ),
{
    get_date_string_from_timestamp(last_liquidation_date)
}

} // verus!

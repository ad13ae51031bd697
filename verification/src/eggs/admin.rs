//! Setting the protocol up and changing its parameters.

use vstd::prelude::*;
use crate::address::Address;
use crate::calendar::{get_midnight_timestamp, next_midnight, term_fits};
use crate::eggs::context::{SetStart, Settlement};
use crate::eggs::error::EggsError;
use crate::eggs::states::{EggsState, LAMPORTS_PER_SOL, MAX_SUPPLY, MIN};

verus! {

/// Whether `state` is that of a protocol that has just been set up at time
/// `now`: the fees at their defaults, no fee address, nothing lent or
/// minted, trading not started, and the sweep standing on the first
/// midnight after `now`.
pub open spec fn is_initial(
    state: EggsState,
    authority: Address,
    mint: Address,
    bump: u8,
    now: i64,
) -> bool {
    &&& state.fee_address.is_unset()
    &&& state.sell_fee == 975
    &&& state.buy_fee == 975
    &&& state.buy_fee_leverage == 10
    &&& !state.start
    &&& state.total_borrowed == 0
    &&& state.total_collateral == 0
    &&& state.total_minted == 0
    &&& state.last_price == 0
    &&& state.last_liquidation_date == next_midnight(now as int)
    &&& state.mint == mint
    &&& state.authority == authority
    &&& state.bump == bump
}

/// Sets the protocol up. `ArithmeticOverflow` where the first midnight
/// after `now` cannot be stored.
pub fn initialize(authority: Address, mint: Address, bump: u8, now: i64) -> (r: Result<
    EggsState,
    EggsError,
>)
    ensures
        match r {
            Ok(state) => term_fits(now, 0) && is_initial(state, authority, mint, bump, now)
                && state.wf(),
            Err(e) => !term_fits(now, 0) && e == EggsError::ArithmeticOverflow,
        },
{
    if now < i64::MIN + 86400 || now > i64::MAX - 86400 {
        return Err(EggsError::ArithmeticOverflow);
    }
    Ok(
        EggsState {
            fee_address: Address { bytes: [0u8; 32] },
            sell_fee: 975,
            buy_fee: 975,
            buy_fee_leverage: 10,
            start: false,
            total_borrowed: 0,
            total_collateral: 0,
            total_minted: 0,
            last_price: 0,
            last_liquidation_date: get_midnight_timestamp(now),
            mint,
            authority,
            bump,
        },
    )
}

/// Sets the address that receives the protocol's cut of the fees.
/// `InvalidParameter`, with the state unchanged, for the unset address.
pub fn set_fee_address(state: &mut EggsState, fee_address: Address) -> (r: Result<(), EggsError>)
    ensures
        r == (if fee_address.is_unset() {
            Err::<(), EggsError>(EggsError::InvalidParameter)
        } else {
            Ok::<(), EggsError>(())
        }),
        *final(state) == (if fee_address.is_unset() {
            *old(state)
        } else {
            EggsState { fee_address, ..*old(state) }
        }),
{
    if fee_address.is_default() {
        return Err(EggsError::InvalidParameter);
    }
    state.fee_address = fee_address;
    Ok(())
}

/// Whether a buy or sell fee lies within its bounds.
pub open spec fn trade_fee_allowed(amount: u16) -> bool {
    975 <= amount <= 992
}

/// Sets the parts of a thousand that a buyer keeps. `InvalidParameter`,
/// with the state unchanged, outside 975 to 992.
pub fn set_buy_fee(state: &mut EggsState, amount: u16) -> (r: Result<(), EggsError>)
    ensures
        r == (if trade_fee_allowed(amount) {
            Ok::<(), EggsError>(())
        } else {
            Err::<(), EggsError>(EggsError::InvalidParameter)
        }),
        *final(state) == (if trade_fee_allowed(amount) {
            EggsState { buy_fee: amount, ..*old(state) }
        } else {
            *old(state)
        }),
        old(state).wf() ==> final(state).wf(),
{
    if amount > 992 || amount < 975 {
        return Err(EggsError::InvalidParameter);
    }
    state.buy_fee = amount;
    Ok(())
}

/// Sets the parts of a thousand charged for opening a leveraged position.
/// `InvalidParameter`, with the state unchanged, above 25.
pub fn set_buy_fee_leverage(state: &mut EggsState, amount: u16) -> (r: Result<(), EggsError>)
    ensures
        r == (if amount <= 25 {
            Ok::<(), EggsError>(())
        } else {
            Err::<(), EggsError>(EggsError::InvalidParameter)
        }),
        *final(state) == (if amount <= 25 {
            EggsState { buy_fee_leverage: amount, ..*old(state) }
        } else {
            *old(state)
        }),
        old(state).wf() ==> final(state).wf(),
{
    if amount > 25 {
        return Err(EggsError::InvalidParameter);
    }
    state.buy_fee_leverage = amount;
    Ok(())
}

/// Sets the parts of a thousand that a seller keeps. `InvalidParameter`,
/// with the state unchanged, outside 975 to 992.
pub fn set_sell_fee(state: &mut EggsState, amount: u16) -> (r: Result<(), EggsError>)
    ensures
        r == (if trade_fee_allowed(amount) {
            Ok::<(), EggsError>(())
        } else {
            Err::<(), EggsError>(EggsError::InvalidParameter)
        }),
        *final(state) == (if trade_fee_allowed(amount) {
            EggsState { sell_fee: amount, ..*old(state) }
        } else {
            *old(state)
        }),
        old(state).wf() ==> final(state).wf(),
{
    if amount > 992 || amount < 975 {
        return Err(EggsError::InvalidParameter);
    }
    state.sell_fee = amount;
    Ok(())
}

/// The outcome of starting trading with a first deposit of `amount`
/// lamports: the team receives a thousand tokens for every lamport.
pub open spec fn started(ctx: SetStart, amount: u64) -> Result<(SetStart, Settlement), EggsError> {
    if ctx.state.fee_address.is_unset() {
        Err(EggsError::FeeAddressNotSet)
    } else if ctx.state.start {
        Err(EggsError::TradingNotInitialized)
    } else if amount < LAMPORTS_PER_SOL {
        Err(EggsError::BelowMinimumValue)
    } else if ctx.state_account_lamports + amount > u64::MAX {
        Err(EggsError::ArithmeticOverflow)
    } else if ctx.state.total_minted + amount * MIN > MAX_SUPPLY || ctx.state.total_minted
        + amount * MIN > u64::MAX {
        Err(EggsError::MaxSupplyExceeded)
    } else {
        Ok(
            (
                SetStart {
                    state: EggsState {
                        start: true,
                        total_minted: (ctx.state.total_minted + amount * MIN) as u64,
                        ..ctx.state
                    },
                    state_account_lamports: (ctx.state_account_lamports + amount) as u64,
                },
                Settlement {
                    paid_in: amount,
                    minted: (amount * MIN) as u64,
                    ..Settlement::nothing()
                },
            ),
        )
    }
}

/// Starts trading with a first deposit of `amount` lamports.
///
/// Fails with `FeeAddressNotSet` while the fee address is unset, with
/// `TradingNotInitialized` where trading has started already, with
/// `BelowMinimumValue` for less than one unit of the base asset, and with
/// `MaxSupplyExceeded` where the supply would pass the cap or leave 64
/// bits. A failed
/// call changes nothing.
pub fn set_start(ctx: &mut SetStart, amount: u64) -> (r: Result<Settlement, EggsError>)
    ensures
        match started(*old(ctx), amount) {
            Ok((after, settlement)) => r == Ok::<Settlement, EggsError>(settlement) && *final(ctx)
                == after,
            Err(e) => r == Err::<Settlement, EggsError>(e) && *final(ctx) == *old(ctx),
        },
{
    if ctx.state.fee_address.is_default() {
        return Err(EggsError::FeeAddressNotSet);
    }
    if ctx.state.start {
        return Err(EggsError::TradingNotInitialized);
    }
    if amount < LAMPORTS_PER_SOL {
        return Err(EggsError::BelowMinimumValue);
    }
    let lamports = match ctx.state_account_lamports.checked_add(amount) {
        Some(sum) => sum,
        None => {
            return Err(EggsError::ArithmeticOverflow);
        },
    };
    let team_mint_amount: u128 = (amount as u128) * (MIN as u128);
    let supply: u128 = (ctx.state.total_minted as u128) + team_mint_amount;
    if supply > MAX_SUPPLY || supply > u64::MAX as u128 {
        return Err(EggsError::MaxSupplyExceeded);
    }
    let team_mint_amount: u64 = team_mint_amount as u64;
    let supply: u64 = supply as u64;
    ctx.state.start = true;
    ctx.state.total_minted = supply;
    ctx.state_account_lamports = lamports;
    let mut settlement = Settlement::none();
    settlement.paid_in = amount;
    settlement.minted = team_mint_amount;
    Ok(settlement)
}

} // verus!

//! Changing the parameters.

use vstd::prelude::*;
use crate::address::Address;
use crate::mushi_program::error::MushiProgramError;
use crate::mushi_program::state::MainState;

verus! {

/// The parameters to change; what is `None` stays as it is.
#[derive(Clone, Copy, Debug)]
pub struct UpdateMainStateInput {
    pub admin: Option<Address>,
    pub fee_receiver: Option<Address>,
    pub sell_fee: Option<u64>,
    pub buy_fee: Option<u64>,
    pub buy_fee_leverage: Option<u64>,
    pub quote_token: Option<Address>,
    pub stake_token: Option<Address>,
    pub stake_vault_program: Option<Address>,
    pub stake_enabled: Option<bool>,
    pub started: Option<bool>,
}

/// `new` where it is given, else `old`.
pub open spec fn replaced<T>(old: T, new: Option<T>) -> T {
    match new {
        Some(value) => value,
        None => old,
    }
}

/// Whether a buy or sell fee lies within its bounds.
pub open spec fn trade_fee_allowed(fee: u64) -> bool {
    975 <= fee <= 992
}

/// The parameters after the change, or the reason for which it is refused:
/// a buy or sell fee outside 975 to 992, or a leverage fee above 25.
pub open spec fn main_state_updated(state: MainState, input: UpdateMainStateInput) -> Result<
    MainState,
    MushiProgramError,
> {
    if input.buy_fee is Some && !trade_fee_allowed(input.buy_fee->0) {
        Err(MushiProgramError::InvalidBuyFee)
    } else if input.sell_fee is Some && !trade_fee_allowed(input.sell_fee->0) {
        Err(MushiProgramError::InvalidSellFee)
    } else if input.buy_fee_leverage is Some && input.buy_fee_leverage->0 > 25 {
        Err(MushiProgramError::InvalidBuyFeeLeverage)
    } else {
        Ok(
            MainState {
                admin: replaced(state.admin, input.admin),
                fee_receiver: replaced(state.fee_receiver, input.fee_receiver),
                buy_fee: replaced(state.buy_fee, input.buy_fee),
                sell_fee: replaced(state.sell_fee, input.sell_fee),
                buy_fee_leverage: replaced(state.buy_fee_leverage, input.buy_fee_leverage),
                quote_token: replaced(state.quote_token, input.quote_token),
                stake_token: replaced(state.stake_token, input.stake_token),
                stake_vault_program: replaced(state.stake_vault_program, input.stake_vault_program),
                stake_enabled: replaced(state.stake_enabled, input.stake_enabled),
                started: replaced(state.started, input.started),
            },
        )
    }
}

/// Changes the parameters that `input` names. Fails with `InvalidBuyFee` or
/// `InvalidSellFee` for a fee outside 975 to 992 and with
/// `InvalidBuyFeeLeverage` for a leverage fee above 25; a refused change
/// leaves every parameter as it was.
pub fn update_main_state(state: &mut MainState, input: UpdateMainStateInput) -> (r: Result<
    (),
    MushiProgramError,
>)
    ensures
        match main_state_updated(*old(state), input) {
            Ok(updated) => r is Ok && *final(state) == updated,
            Err(e) => r == Err::<(), MushiProgramError>(e) && *final(state) == *old(state),
        },
        r is Ok && old(state).wf() ==> final(state).wf(),
{
    let mut updated = *state;
    match input.admin {
        Some(admin) => {
            updated.admin = admin;
        },
        None => {},
    }
    match input.fee_receiver {
        Some(fee_receiver) => {
            updated.fee_receiver = fee_receiver;
        },
        None => {},
    }
    match input.quote_token {
        Some(quote_token) => {
            updated.quote_token = quote_token;
        },
        None => {},
    }
    match input.stake_token {
        Some(stake_token) => {
            updated.stake_token = stake_token;
        },
        None => {},
    }
    match input.stake_vault_program {
        Some(stake_vault_program) => {
            updated.stake_vault_program = stake_vault_program;
        },
        None => {},
    }
    match input.stake_enabled {
        Some(stake_enabled) => {
            updated.stake_enabled = stake_enabled;
        },
        None => {},
    }
    match input.buy_fee {
        Some(buy_fee) => {
            if !(buy_fee <= 992 && buy_fee >= 975) {
                return Err(MushiProgramError::InvalidBuyFee);
            }
            updated.buy_fee = buy_fee;
        },
        None => {},
    }
    match input.sell_fee {
        Some(sell_fee) => {
            if !(sell_fee <= 992 && sell_fee >= 975) {
                return Err(MushiProgramError::InvalidSellFee);
            }
            updated.sell_fee = sell_fee;
        },
        None => {},
    }
    match input.buy_fee_leverage {
        Some(buy_fee_leverage) => {
            if buy_fee_leverage > 25 {
                return Err(MushiProgramError::InvalidBuyFeeLeverage);
            }
            updated.buy_fee_leverage = buy_fee_leverage;
        },
        None => {},
    }
    match input.started {
        Some(started) => {
            updated.started = started;
        },
        None => {},
    }
    *state = updated;
    Ok(())
}

} // verus!

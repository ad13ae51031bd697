//! Setting the protocol up.

use vstd::prelude::*;
use crate::address::Address;
use crate::calendar::{get_midnight_timestamp, next_midnight, term_fits};
use crate::mushi_program::error::MushiProgramError;
use crate::mushi_program::state::{GlobalStats, MainState};

verus! {

/// The parameters the protocol is set up with.
#[derive(Clone, Copy, Debug)]
pub struct InitializeInput {
    pub fee_receiver: Address,
    pub sell_fee: u64,
    pub buy_fee: u64,
    pub buy_fee_leverage: u64,
}

/// Whether the two records are those of a protocol that has just been set
/// up at time `now`: the parameters as given, staking and trading off,
/// nothing lent, staked or minted, and the sweep standing on the first
/// midnight after `now`.
pub open spec fn is_initial(
    main_state: MainState,
    global_state: GlobalStats,
    admin: Address,
    quote_token: Address,
    input: InitializeInput,
    now: i64,
) -> bool {
    &&& main_state.admin == admin
    &&& main_state.fee_receiver == input.fee_receiver
    &&& main_state.sell_fee == input.sell_fee
    &&& main_state.buy_fee == input.buy_fee
    &&& main_state.buy_fee_leverage == input.buy_fee_leverage
    &&& main_state.quote_token == quote_token
    &&& main_state.stake_token.is_unset()
    &&& main_state.stake_vault_program.is_unset()
    &&& !main_state.stake_enabled
    &&& !main_state.started
    &&& global_state.last_liquidation_date == next_midnight(now as int)
    &&& global_state.total_borrowed == 0
    &&& global_state.total_collateral == 0
    &&& global_state.total_eclipse_token_staked == 0
    &&& global_state.token_supply == 0
    &&& global_state.last_price == 0
    &&& global_state.base_token.is_unset()
}

/// Sets the protocol up at time `now`. `ArithmeticOverflow` where the first
/// midnight after `now` cannot be stored.
pub fn init_main_state(admin: Address, quote_token: Address, input: InitializeInput, now: i64) -> (r:
    Result<(MainState, GlobalStats), MushiProgramError>)
    ensures
        match r {
            Ok((main_state, global_state)) => term_fits(now, 0) && is_initial(
                main_state,
                global_state,
                admin,
                quote_token,
                input,
                now,
            ) && global_state.wf(),
            Err(e) => !term_fits(now, 0) && e == MushiProgramError::ArithmeticOverflow,
        },
{
    if now < i64::MIN + 86400 || now > i64::MAX - 86400 {
        return Err(MushiProgramError::ArithmeticOverflow);
    }
    let main_state = MainState {
        admin,
        fee_receiver: input.fee_receiver,
        buy_fee: input.buy_fee,
        sell_fee: input.sell_fee,
        buy_fee_leverage: input.buy_fee_leverage,
        quote_token,
        stake_token: Address::unset(),
        stake_vault_program: Address::unset(),
        stake_enabled: false,
        started: false,
    };
    let global_state = GlobalStats {
        last_liquidation_date: get_midnight_timestamp(now),
        total_borrowed: 0,
        total_collateral: 0,
        total_eclipse_token_staked: 0,
        token_supply: 0,
        last_price: 0,
        base_token: Address::unset(),
    };
    Ok((main_state, global_state))
}

} // verus!

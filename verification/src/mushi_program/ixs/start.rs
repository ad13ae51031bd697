//! Starting trading.

use vstd::prelude::*;
use crate::address::Address;
use crate::mushi_program::constants::{LAMPORTS_PER_ECLIPSE, MAX_SUPPLY, MIN_INITIALIZE_RATIO};
use crate::mushi_program::error::MushiProgramError;
use crate::mushi_program::state::{GlobalStats, MainState};
use crate::mushi_program::transfers::Transfers;

verus! {

/// The accounts of the start of trading.
#[derive(Clone, Copy, Debug)]
pub struct AStart {
    /// The parameters of the protocol.
    pub main_state: MainState,
    /// The ledger of the protocol.
    pub global_state: GlobalStats,
    /// The mint of the issued token.
    pub base_token: Address,
    /// Tokens the vault holds.
    pub token_vault_amount: u64,
    /// Base units of the quote asset the vault holds.
    pub quote_vault_amount: u64,
}

/// The outcome of starting trading with a first deposit of `es_amount` base
/// units: a token is minted into the vault for every base unit, and one
/// whole token of them is burned.
pub open spec fn started(ctx: AStart, es_amount: u64) -> Result<(AStart, Transfers), MushiProgramError> {
    let team_mint_amount = es_amount * MIN_INITIALIZE_RATIO;
    if ctx.main_state.started {
        Err(MushiProgramError::AlreadyStarted)
    } else if team_mint_amount < LAMPORTS_PER_ECLIPSE {
        Err(MushiProgramError::InvalidInput)
    } else if ctx.global_state.token_supply + team_mint_amount > MAX_SUPPLY {
        Err(MushiProgramError::MaxSupplyExceeded)
    } else if ctx.token_vault_amount + team_mint_amount > u64::MAX || ctx.quote_vault_amount
        + es_amount > u64::MAX {
        Err(MushiProgramError::ArithmeticOverflow)
    } else {
        Ok(
            (
                AStart {
                    main_state: MainState { started: true, ..ctx.main_state },
                    global_state: GlobalStats {
                        token_supply: team_mint_amount as u64,
                        base_token: ctx.base_token,
                        total_borrowed: 0,
                        total_collateral: 0,
                        last_price: 0,
                        ..ctx.global_state
                    },
                    token_vault_amount: (ctx.token_vault_amount + team_mint_amount
                        - LAMPORTS_PER_ECLIPSE) as u64,
                    quote_vault_amount: (ctx.quote_vault_amount + es_amount) as u64,
                    ..ctx
                },
                Transfers {
                    quote_to_vault: es_amount,
                    minted_to_vault: team_mint_amount as u64,
                    burned_from_vault: LAMPORTS_PER_ECLIPSE,
                    ..Transfers::nothing()
                },
            ),
        )
    }
}

/// Starts trading with a first deposit of `es_amount` base units.
///
/// Fails with `AlreadyStarted` where trading has started, with
/// `InvalidInput` for less than one unit of the quote asset, and with
/// `MaxSupplyExceeded` where the supply would pass its cap. A failed call
/// changes nothing.
pub fn start(ctx: &mut AStart, es_amount: u64) -> (r: Result<Transfers, MushiProgramError>)
    ensures
        match started(*old(ctx), es_amount) {
            Ok((after, transfers)) => r == Ok::<Transfers, MushiProgramError>(transfers)
                && *final(ctx) == after,
            Err(e) => r == Err::<Transfers, MushiProgramError>(e) && *final(ctx) == *old(ctx),
        },
{
    if ctx.main_state.started {
        return Err(MushiProgramError::AlreadyStarted);
    }
    let team_mint_amount = es_amount * MIN_INITIALIZE_RATIO;
    if team_mint_amount < LAMPORTS_PER_ECLIPSE {
        return Err(MushiProgramError::InvalidInput);
    }
    let supply: u128 = (ctx.global_state.token_supply as u128) + (team_mint_amount as u128);
    if supply > MAX_SUPPLY as u128 {
        return Err(MushiProgramError::MaxSupplyExceeded);
    }
    let held = ctx.token_vault_amount.checked_add(team_mint_amount);
    let vault = ctx.quote_vault_amount.checked_add(es_amount);
    if held.is_none() || vault.is_none() {
        return Err(MushiProgramError::ArithmeticOverflow);
    }
    ctx.main_state.started = true;
    ctx.global_state.token_supply = team_mint_amount;
    ctx.global_state.base_token = ctx.base_token;
    ctx.global_state.total_borrowed = 0;
    ctx.global_state.total_collateral = 0;
    ctx.global_state.last_price = 0;
    ctx.token_vault_amount = held.unwrap() - LAMPORTS_PER_ECLIPSE;
    ctx.quote_vault_amount = vault.unwrap();
    let mut transfers = Transfers::none();
    transfers.quote_to_vault = es_amount;
    transfers.minted_to_vault = team_mint_amount;
    transfers.burned_from_vault = LAMPORTS_PER_ECLIPSE;
    Ok(transfers)
}

} // verus!

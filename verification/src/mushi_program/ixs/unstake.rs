//! Taking staked quote asset back.

use vstd::prelude::*;
use crate::mushi_program::error::MushiProgramError;
use crate::mushi_program::state::GlobalStats;

verus! {

/// Records that `amount` base units of the quote asset are no longer
/// staked. `ArithmeticOverflow`, with the ledger unchanged, where less is
/// staked.
pub fn unstake(global_state: &mut GlobalStats, amount: u64) -> (r: Result<(), MushiProgramError>)
    ensures
        r == (if old(global_state).total_eclipse_token_staked >= amount {
            Ok::<(), MushiProgramError>(())
        } else {
            Err::<(), MushiProgramError>(MushiProgramError::ArithmeticOverflow)
        }),
        *final(global_state) == (if old(global_state).total_eclipse_token_staked >= amount {
            GlobalStats {
                total_eclipse_token_staked: (old(global_state).total_eclipse_token_staked
                    - amount) as u64,
                ..*old(global_state)
            }
        } else {
            *old(global_state)
        }),
{
    match global_state.total_eclipse_token_staked.checked_sub(amount) {
        Some(rest) => {
            global_state.total_eclipse_token_staked = rest;
            Ok(())
        },
        None => Err(MushiProgramError::ArithmeticOverflow),
    }
}

} // verus!

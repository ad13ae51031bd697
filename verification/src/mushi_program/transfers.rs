//! What an instruction asks the outside to carry out.

use vstd::prelude::*;

verus! {

/// The movements of quote asset and tokens that an instruction has decided
/// on. The records the instruction leaves already count them as done.
#[derive(Clone, Copy, Debug, PartialEq, Eq, Structural)]
pub struct Transfers {
    /// Quote asset the caller pays into the vault.
    pub quote_to_vault: u64,
    /// Quote asset the caller pays to the fee receiver.
    pub quote_to_fee_receiver: u64,
    /// Quote asset the caller pays to the referrer.
    pub quote_to_referral: u64,
    /// Quote asset the vault pays to the caller.
    pub quote_to_user: u64,
    /// Quote asset the vault pays to the fee receiver.
    pub fee_from_vault: u64,
    /// Tokens minted to the caller.
    pub minted_to_user: u64,
    /// Tokens minted into the vault.
    pub minted_to_vault: u64,
    /// Tokens of the caller that are burned.
    pub burned_from_user: u64,
    /// Tokens burned out of the vault.
    pub burned_from_vault: u64,
    /// Tokens the caller moves into the vault.
    pub tokens_to_vault: u64,
    /// Tokens the vault hands back to the caller.
    pub tokens_to_user: u64,
}

impl Transfers {
    /// No movement at all.
    pub open spec fn nothing() -> Transfers {
        Transfers {
            quote_to_vault: 0,
            quote_to_fee_receiver: 0,
            quote_to_referral: 0,
            quote_to_user: 0,
            fee_from_vault: 0,
            minted_to_user: 0,
            minted_to_vault: 0,
            burned_from_user: 0,
            burned_from_vault: 0,
            tokens_to_vault: 0,
            tokens_to_user: 0,
        }
    }

    /// What the transfers add to the quote asset in the vault.
    pub open spec fn quote_in(self) -> int {
        self.quote_to_vault - self.quote_to_user - self.fee_from_vault
    }

    /// What the transfers add to the tokens in the vault.
    pub open spec fn tokens_in(self) -> int {
        self.minted_to_vault + self.tokens_to_vault - self.tokens_to_user - self.burned_from_vault
    }

    /// What the transfers add to the tokens outstanding.
    pub open spec fn supply_in(self) -> int {
        self.minted_to_user + self.minted_to_vault - self.burned_from_user
            - self.burned_from_vault
    }

    /// No movement at all.
    pub fn none() -> (transfers: Transfers)
        ensures
            transfers == Transfers::nothing(),
    {
        Transfers {
            quote_to_vault: 0,
            quote_to_fee_receiver: 0,
            quote_to_referral: 0,
            quote_to_user: 0,
            fee_from_vault: 0,
            minted_to_user: 0,
            minted_to_vault: 0,
            burned_from_user: 0,
            burned_from_vault: 0,
            tokens_to_vault: 0,
            tokens_to_user: 0,
        }
    }
}

} // verus!

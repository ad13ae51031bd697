//! What an operation works on, as plain values, and what it asks the outside
//! to carry out.
//!
//! An operation reads the balances of the accounts it touches, changes the
//! records, and returns a [`Settlement`]: the transfers, mints and burns that
//! bring the accounts to the balances it has reckoned with.

use vstd::prelude::*;
use crate::address::Address;
use crate::eggs::states::{DailyLoanData, EggsState, Loan};

verus! {

/// The movements of lamports and tokens that an operation has decided on.
/// The record of the operation already counts them as done.
#[derive(Clone, Copy, Debug, PartialEq, Eq, Structural)]
pub struct Settlement {
    /// Lamports the caller pays into the state account.
    pub paid_in: u64,
    /// Lamports the state account pays to the caller.
    pub paid_out: u64,
    /// Lamports the state account pays to the fee address.
    pub fee_paid: u64,
    /// Tokens minted to the receiver.
    pub minted: u64,
    /// Tokens minted into escrow.
    pub minted_to_escrow: u64,
    /// Tokens of the caller that are burned.
    pub burned: u64,
    /// Tokens the caller moves into escrow.
    pub escrowed: u64,
    /// Tokens the escrow hands back to the caller.
    pub released: u64,
    /// Tokens burned out of escrow.
    pub forfeited: u64,
}

impl Settlement {
    /// The settlement that moves nothing.
    pub open spec fn nothing() -> Settlement {
        Settlement {
            paid_in: 0,
            paid_out: 0,
            fee_paid: 0,
            minted: 0,
            minted_to_escrow: 0,
            burned: 0,
            escrowed: 0,
            released: 0,
            forfeited: 0,
        }
    }

    /// What the settlement adds to the lamports of the state account.
    pub open spec fn lamports_in(self) -> int {
        self.paid_in - self.paid_out - self.fee_paid
    }

    /// What the settlement adds to the tokens in escrow.
    pub open spec fn escrow_in(self) -> int {
        self.minted_to_escrow + self.escrowed - self.released - self.forfeited
    }

    /// What the settlement adds to the tokens outstanding.
    pub open spec fn supply_in(self) -> int {
        self.minted + self.minted_to_escrow - self.burned - self.forfeited
    }

    /// Whether the balances `after` the operation are those before it with
    /// the settlement carried out.
    pub open spec fn accounts_for(
        self,
        lamports: (u64, u64),
        escrow: (u64, u64),
        supply: (u64, u64),
    ) -> bool {
        &&& lamports.1 == lamports.0 + self.lamports_in()
        &&& escrow.1 == escrow.0 + self.escrow_in()
        &&& supply.1 == supply.0 + self.supply_in()
    }

    /// The settlement that moves nothing.
    pub fn none() -> (settlement: Settlement)
        ensures
            settlement == Settlement::nothing(),
    {
        Settlement {
            paid_in: 0,
            paid_out: 0,
            fee_paid: 0,
            minted: 0,
            minted_to_escrow: 0,
            burned: 0,
            escrowed: 0,
            released: 0,
            forfeited: 0,
        }
    }
}

/// The accounts of a purchase or a sale.
#[derive(Clone, Copy, Debug)]
pub struct Trade {
    /// The state of the protocol.
    pub state: EggsState,
    /// Lamports the state account holds.
    pub state_account_lamports: u64,
    /// Tokens held in escrow for all loans.
    pub escrow_token_amount: u64,
    /// The bucket of the day the liquidation sweep stands on.
    pub liquidation_data: DailyLoanData,
    /// Who receives the tokens of a purchase.
    pub receiver: Address,
}

impl Trade {
    /// Whether the balances of `after` are those of these accounts with the
    /// settlement carried out.
    pub open spec fn settles(self, after: Trade, settlement: Settlement) -> bool {
        settlement.accounts_for(
            (self.state_account_lamports, after.state_account_lamports),
            (self.escrow_token_amount, after.escrow_token_amount),
            (self.state.total_minted, after.state.total_minted),
        )
    }
}

/// The accounts of an operation on the caller's loan.
#[derive(Clone, Copy, Debug)]
pub struct LoanOperation {
    /// The caller.
    pub authority: Address,
    /// Lamports the caller holds.
    pub authority_lamports: u64,
    /// Tokens the caller holds.
    pub authority_token_amount: u64,
    /// The state of the protocol.
    pub state: EggsState,
    /// Lamports the state account holds.
    pub state_account_lamports: u64,
    /// Tokens held in escrow for all loans.
    pub escrow_token_amount: u64,
    /// The caller's loan.
    pub loan: Loan,
    /// The bucket of the day the loan ends on: for a new loan, of the day it
    /// will end on.
    pub daily_loan_data: DailyLoanData,
    /// The bucket of the day the liquidation sweep stands on.
    pub liquidation_data: DailyLoanData,
}

impl LoanOperation {
    /// Whether the balances of `after` are those of these accounts with the
    /// settlement carried out.
    pub open spec fn settles(self, after: LoanOperation, settlement: Settlement) -> bool {
        settlement.accounts_for(
            (self.state_account_lamports, after.state_account_lamports),
            (self.escrow_token_amount, after.escrow_token_amount),
            (self.state.total_minted, after.state.total_minted),
        )
    }
}

/// The accounts of the start of trading.
#[derive(Clone, Copy, Debug)]
pub struct SetStart {
    /// The state of the protocol.
    pub state: EggsState,
    /// Lamports the state account holds.
    pub state_account_lamports: u64,
}

} // verus!

//! The records of the protocol: its parameters, its ledger, one loan per
//! borrower, and one bucket per day on which loans end.

use vstd::prelude::*;
use crate::address::Address;
use crate::calendar::is_midnight;

verus! {

/// The parameters of the protocol.
#[derive(Clone, Copy, Debug)]
pub struct MainState {
    /// Who may change the parameters.
    pub admin: Address,
    /// Receives the protocol's cut of every fee.
    pub fee_receiver: Address,
    /// Parts of a thousand that a buyer keeps.
    pub buy_fee: u64,
    /// Parts of a thousand that a seller keeps.
    pub sell_fee: u64,
    /// Parts of a thousand charged for opening a leveraged position.
    pub buy_fee_leverage: u64,
    /// The mint of the quote asset.
    pub quote_token: Address,
    /// The mint of the staking token.
    pub stake_token: Address,
    /// The program that holds staked quote asset.
    pub stake_vault_program: Address,
    /// Whether staking is open.
    pub stake_enabled: bool,
    /// Whether trading has started.
    pub started: bool,
}

impl MainState {
    /// The bounds the fee parameters are held to.
    pub open spec fn wf(self) -> bool {
        &&& 975 <= self.sell_fee <= 992
        &&& 975 <= self.buy_fee <= 992
        &&& self.buy_fee_leverage <= 25
    }
}

/// The loan of one borrower. All zero while the borrower has none.
#[derive(Clone, Copy, Debug, PartialEq, Eq, Structural)]
pub struct UserLoan {
    /// Tokens held as security.
    pub collateral: u64,
    /// Base units of the quote asset owed.
    pub borrowed: u64,
    /// The midnight at which the loan ends.
    pub end_date: i64,
    /// The term in days.
    pub number_of_days: u64,
}

impl UserLoan {
    /// Whether the loan has run out at `current_date`.
    pub open spec fn expired_at(self, current_date: int) -> bool {
        self.end_date < current_date
    }

    /// A loan that owes nothing holds nothing.
    pub open spec fn wf(self) -> bool {
        self.borrowed == 0 ==> self.collateral == 0
    }

    /// The record of a borrower without a loan.
    pub open spec fn cleared() -> UserLoan {
        UserLoan { collateral: 0, borrowed: 0, end_date: 0, number_of_days: 0 }
    }

    /// The record of a borrower without a loan.
    pub fn empty() -> (loan: UserLoan)
        ensures
            loan == UserLoan::cleared(),
    {
        UserLoan { collateral: 0, borrowed: 0, end_date: 0, number_of_days: 0 }
    }
}

/// What all loans that end on one day owe and hold.
#[derive(Clone, Copy, Debug, PartialEq, Eq, Structural)]
pub struct DailyStats {
    /// The midnight this bucket stands for; zero until a loan is entered.
    pub date: i64,
    /// Base units owed by the loans that end on `date`.
    pub borrowed: u64,
    /// Tokens held for the loans that end on `date`.
    pub collateral: u64,
}

impl DailyStats {
    /// Whether the bucket holds nothing.
    pub open spec fn is_empty(self) -> bool {
        self.borrowed == 0 && self.collateral == 0
    }

    /// Whether the bucket may take the entries of `date`: it is the bucket of
    /// that day, or it holds nothing yet.
    pub open spec fn serves(self, date: int) -> bool {
        self.date == date || self.is_empty()
    }

    /// The bucket as a value to hand out.
    pub fn result(&self) -> (copy: DailyStatsResult)
        ensures
            copy == (DailyStatsResult {
                date: self.date,
                borrowed: self.borrowed,
                collateral: self.collateral,
            }),
    {
        DailyStatsResult { date: self.date, borrowed: self.borrowed, collateral: self.collateral }
    }
}

/// The ledger of the protocol.
#[derive(Clone, Copy, Debug)]
pub struct GlobalStats {
    /// The day the liquidation sweep handles next; every earlier day is done.
    pub last_liquidation_date: i64,
    /// Base units owed by all open loans.
    pub total_borrowed: u64,
    /// Tokens held as collateral of all open loans.
    pub total_collateral: u64,
    /// Base units of the quote asset that are staked elsewhere.
    pub total_eclipse_token_staked: u64,
    /// Tokens outstanding.
    pub token_supply: u64,
    /// The last price the safety check saw.
    pub last_price: u64,
    /// The mint of the issued token.
    pub base_token: Address,
}

impl GlobalStats {
    /// The alignment of the sweep's cursor.
    pub open spec fn wf(self) -> bool {
        is_midnight(self.last_liquidation_date as int)
    }
}

/// The content of a bucket, as handed out to a caller.
#[derive(Clone, Copy, Debug, PartialEq, Eq, Structural)]
pub struct DailyStatsResult {
    pub date: i64,
    pub borrowed: u64,
    pub collateral: u64,
}

} // verus!

//! The records the engine keeps: the state of the whole protocol, one loan
//! per borrower, and one bucket per day on which loans end.

use vstd::prelude::*;
use crate::address::Address;
use crate::calendar::is_midnight;

verus! {

/// Fees are parts of a thousand.
pub const FEE_BASE_1000: u16 = 1000;

/// A fee for the fee address has to exceed this many lamports.
pub const MIN: u64 = 1000;

/// The fee address receives the `FEES_BUY`-th part of every purchase.
pub const FEES_BUY: u16 = 125;

/// The fee address receives the `FEES_SELL`-th part of every sale.
pub const FEES_SELL: u16 = 125;

/// Decimal places of the base asset.
pub const SONIC_DECIMALS: u8 = 9;

/// Decimal places of the issued token.
pub const EGGS_DECIMALS: u8 = 9;

/// No more tokens than this may ever be outstanding.
pub const MAX_SUPPLY: u128 = 10_000_000_000_000_000_000_000_000_000;

/// Lamports in one unit of the base asset; also the fixed-point scale of
/// the price.
pub const LAMPORTS_PER_SOL: u64 = 1_000_000_000;

/// The state of the protocol.
#[derive(Clone, Copy, Debug)]
pub struct EggsState {
    /// Receives the protocol's cut of every fee.
    pub fee_address: Address,
    /// Parts of a thousand that a seller keeps.
    pub sell_fee: u16,
    /// Parts of a thousand that a buyer keeps.
    pub buy_fee: u16,
    /// Parts of a thousand charged for opening a leveraged position.
    pub buy_fee_leverage: u16,
    /// Whether trading has started.
    pub start: bool,
    /// Lamports owed by all open loans.
    pub total_borrowed: u64,
    /// Tokens held as collateral of all open loans.
    pub total_collateral: u64,
    /// Tokens outstanding.
    pub total_minted: u64,
    /// The last price the safety check saw.
    pub last_price: u64,
    /// The day the liquidation sweep handles next; every earlier day is done.
    pub last_liquidation_date: i64,
    /// The mint of the issued token.
    pub mint: Address,
    /// Who may change the parameters.
    pub authority: Address,
    /// Seed of the state account's address.
    pub bump: u8,
}

impl EggsState {
    /// The bounds the fee parameters are held to, and the alignment of the
    /// sweep's cursor.
    pub open spec fn wf(self) -> bool {
        &&& 975 <= self.sell_fee <= 992
        &&& 975 <= self.buy_fee <= 992
        &&& self.buy_fee_leverage <= 25
        &&& is_midnight(self.last_liquidation_date as int)
    }
}

/// The loan of one borrower. All zero while the borrower has none.
#[derive(Clone, Copy, Debug)]
pub struct Loan {
    /// The borrower.
    pub user: Address,
    /// Tokens held as security.
    pub collateral: u64,
    /// Lamports owed.
    pub borrowed: u64,
    /// The midnight at which the loan ends.
    pub end_date: i64,
    /// The term in days.
    pub number_of_days: u64,
}

impl Loan {
    /// Whether the loan has run out at `current_time`.
    pub open spec fn expired_at(self, current_time: int) -> bool {
        self.end_date < current_time
    }

    /// A loan that owes nothing holds nothing.
    pub open spec fn wf(self) -> bool {
        self.borrowed == 0 ==> self.collateral == 0
    }

    /// The record of a borrower without a loan.
    pub open spec fn cleared(self) -> Loan {
        Loan { user: self.user, collateral: 0, borrowed: 0, end_date: 0, number_of_days: 0 }
    }
}

/// What all loans that end on one day owe and hold.
#[derive(Clone, Copy, Debug)]
pub struct DailyLoanData {
    /// The midnight this bucket stands for; zero until a loan is entered.
    pub date: i64,
    /// Lamports owed by the loans that end on `date`.
    pub borrowed: u64,
    /// Tokens held for the loans that end on `date`.
    pub collateral: u64,
}

impl DailyLoanData {
    /// Whether the bucket holds nothing.
    pub open spec fn is_empty(self) -> bool {
        self.borrowed == 0 && self.collateral == 0
    }

    /// Whether the bucket may take the entries of `date`: it is the bucket of
    /// that day, or it holds nothing yet.
    pub open spec fn serves(self, date: int) -> bool {
        self.date == date || self.is_empty()
    }
}

} // verus!

//! The engine on a native base asset: one state record holds the ledger and
//! the fee parameters, and amounts of the base asset are counted in lamports.

pub mod admin;
pub mod conservation;
pub mod context;
pub mod error;
pub mod laws;
pub mod lending;
pub mod liquidation;
pub mod position;
pub mod states;
pub mod trading;
pub mod utils;

pub use admin::{
    initialize, set_buy_fee, set_buy_fee_leverage, set_fee_address, set_sell_fee, set_start,
};
pub use context::{LoanOperation, SetStart, Settlement, Trade};
pub use error::{EggsError, TradingError};
pub use lending::{borrow, borrow_more, leverage};
pub use liquidation::{liquidate_loans, LiquidateLoans};
pub use position::{close_position, extend_loan, flash_close_position, remove_collateral, repay};
pub use states::{DailyLoanData, EggsState, Loan};
pub use trading::{buy, sell};

//! The engine on a quote token: the parameters and the ledger are separate
//! records, the reserve is a vault of the quote token, and purchases can
//! pay a referrer.

pub mod conservation;
pub mod constants;
pub mod context;
pub mod error;
pub mod ixs;
pub mod laws;
pub mod state;
pub mod transfers;
pub mod utils;

pub use context::{
    ACommon, ACommonExtExtendLoan, ACommonExtLoan, ACommonExtLoan2, ACommonExtReferral,
    ACommonExtSubLoan,
};
pub use error::MushiProgramError;
pub use ixs::{
    borrow, borrow_more, buy, buy_with_referral, close_position, extend_loan,
    flash_close_position, init_main_state, leverage, liquidate_expired_loans, remove_collateral,
    repay, sell, start, unstake, update_main_state, AStart, InitializeInput,
    UpdateMainStateInput,
};
pub use state::{DailyStats, DailyStatsResult, GlobalStats, MainState, UserLoan};
pub use transfers::Transfers;

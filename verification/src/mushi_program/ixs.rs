//! The instructions.

pub mod borrow;
pub mod buy_sell;
pub mod extend_loan;
pub mod init_main_state;
pub mod leverage;
pub mod position;
pub mod remove_collateral;
pub mod repay;
pub mod start;
pub mod unstake;
pub mod update_main_state;

pub use borrow::{borrow, borrow_more};
pub use buy_sell::{buy, buy_with_referral, liquidate_expired_loans, sell};
pub use extend_loan::extend_loan;
pub use init_main_state::{init_main_state, InitializeInput};
pub use leverage::leverage;
pub use position::{close_position, flash_close_position};
pub use remove_collateral::remove_collateral;
pub use repay::repay;
pub use start::{start, AStart};
pub use unstake::unstake;
pub use update_main_state::{update_main_state, UpdateMainStateInput};

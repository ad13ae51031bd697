//! Why an instruction was refused.

use vstd::prelude::*;

verus! {

/// The reasons for which an instruction aborts. An aborted instruction
/// leaves every record as it found it.
#[derive(Clone, Copy, Debug, PartialEq, Eq, Structural)]
pub enum MushiProgramError {
    UnAuthorised,
    InvalidInput,
    TooSmallInputAmount,
    InvalidBuyFee,
    InvalidSellFee,
    InvalidBuyFeeLeverage,
    SafetyCheckCollateralFailed,
    SafetyCheckPriceFailed,
    InvalidNumberOfDays,
    InvalidFeeAmount,
    InvalidFeeReceiver,
    InvalidSolAmount,
    InvalidEclipseAmount,
    InsufficientEclipseAmountOnVault,
    InsufficientMushiAmountOnUserAta,
    InvalidLoanAmount,
    NotStarted,
    AlreadyStarted,
    TooSmallTeamFee,
    LoanExpired,
    InvalidCollateralAmount,
    RemoveCollateralFailed,
    ReferralNotFound,
    InvalidReferralAccount,
    StakeNotEnabled,
    MaxSupplyExceeded,
    NotEnoughDailyStatsAccounts,
    InvalidDailyStatsAccount,
    TooSmallOutputAmount,
    /// A sum or a date left the range of its type.
    ArithmeticOverflow,
}

impl MushiProgramError {
    /// The text shown for the error.
    pub open spec fn message_text(self) -> Seq<char> {
        match self {
            MushiProgramError::UnAuthorised => "method caller is not authorised"@,
            MushiProgramError::InvalidInput => "invalid input"@,
            MushiProgramError::TooSmallInputAmount => "amount is too small"@,
            MushiProgramError::InvalidBuyFee => "buy fee must be greater than FEES_BUY and be less than 2.5%"@,
            MushiProgramError::InvalidSellFee => "sell fee must be greater than FEES_SELL and be less than 2.5%"@,
            MushiProgramError::InvalidBuyFeeLeverage => "leverage buy fee must be less 2.5%"@,
            MushiProgramError::SafetyCheckCollateralFailed => "The mushi balance of the contract must be greater than or equal to the collateral"@,
            MushiProgramError::SafetyCheckPriceFailed => "The price of mushi cannot decrease"@,
            MushiProgramError::InvalidNumberOfDays => "invalid number of days"@,
            MushiProgramError::InvalidFeeAmount => "invalid fee amount"@,
            MushiProgramError::InvalidFeeReceiver => "invalid fee receiver"@,
            MushiProgramError::InvalidSolAmount => "invalid sol amount"@,
            MushiProgramError::InvalidEclipseAmount => "invalid eclipse amount"@,
            MushiProgramError::InsufficientEclipseAmountOnVault => "insufficient eclipse amount on vault"@,
            MushiProgramError::InsufficientMushiAmountOnUserAta => "insufficient mushi amount on user ata"@,
            MushiProgramError::InvalidLoanAmount => "invalid loan amount"@,
            MushiProgramError::NotStarted => "not started"@,
            MushiProgramError::AlreadyStarted => "already started"@,
            MushiProgramError::TooSmallTeamFee => "too small team fee"@,
            MushiProgramError::LoanExpired => "loan expired"@,
            MushiProgramError::InvalidCollateralAmount => "invalid collateral amount"@,
            MushiProgramError::RemoveCollateralFailed => "remove collateral failed"@,
            MushiProgramError::ReferralNotFound => "referral not found"@,
            MushiProgramError::InvalidReferralAccount => "invalid referral account"@,
            MushiProgramError::StakeNotEnabled => "stake is not enabled"@,
            MushiProgramError::MaxSupplyExceeded => "max supply exceeded"@,
            MushiProgramError::NotEnoughDailyStatsAccounts => "not enough daily stats accounts provided for liquidation"@,
            MushiProgramError::InvalidDailyStatsAccount => "invalid daily stats account provided"@,
            MushiProgramError::TooSmallOutputAmount => "too small output amount"@,
            MushiProgramError::ArithmeticOverflow => "arithmetic overflow"@,
        }
    }

    /// The text shown for the error.
    pub fn message(&self) -> (text: &'static str)
        ensures
            text@ == self.message_text(),
    {
        match self {
            MushiProgramError::UnAuthorised => "method caller is not authorised",
            MushiProgramError::InvalidInput => "invalid input",
            MushiProgramError::TooSmallInputAmount => "amount is too small",
            MushiProgramError::InvalidBuyFee => "buy fee must be greater than FEES_BUY and be less than 2.5%",
            MushiProgramError::InvalidSellFee => "sell fee must be greater than FEES_SELL and be less than 2.5%",
            MushiProgramError::InvalidBuyFeeLeverage => "leverage buy fee must be less 2.5%",
            MushiProgramError::SafetyCheckCollateralFailed => "The mushi balance of the contract must be greater than or equal to the collateral",
            MushiProgramError::SafetyCheckPriceFailed => "The price of mushi cannot decrease",
            MushiProgramError::InvalidNumberOfDays => "invalid number of days",
            MushiProgramError::InvalidFeeAmount => "invalid fee amount",
            MushiProgramError::InvalidFeeReceiver => "invalid fee receiver",
            MushiProgramError::InvalidSolAmount => "invalid sol amount",
            MushiProgramError::InvalidEclipseAmount => "invalid eclipse amount",
            MushiProgramError::InsufficientEclipseAmountOnVault => "insufficient eclipse amount on vault",
            MushiProgramError::InsufficientMushiAmountOnUserAta => "insufficient mushi amount on user ata",
            MushiProgramError::InvalidLoanAmount => "invalid loan amount",
            MushiProgramError::NotStarted => "not started",
            MushiProgramError::AlreadyStarted => "already started",
            MushiProgramError::TooSmallTeamFee => "too small team fee",
            MushiProgramError::LoanExpired => "loan expired",
            MushiProgramError::InvalidCollateralAmount => "invalid collateral amount",
            MushiProgramError::RemoveCollateralFailed => "remove collateral failed",
            MushiProgramError::ReferralNotFound => "referral not found",
            MushiProgramError::InvalidReferralAccount => "invalid referral account",
            MushiProgramError::StakeNotEnabled => "stake is not enabled",
            MushiProgramError::MaxSupplyExceeded => "max supply exceeded",
            MushiProgramError::NotEnoughDailyStatsAccounts => "not enough daily stats accounts provided for liquidation",
            MushiProgramError::InvalidDailyStatsAccount => "invalid daily stats account provided",
            MushiProgramError::TooSmallOutputAmount => "too small output amount",
            MushiProgramError::ArithmeticOverflow => "arithmetic overflow",
        }
    }
}

} // verus!

//! Why an operation was refused.

use vstd::prelude::*;

verus! {

/// The reasons for which an operation aborts. An aborted operation leaves
/// every record as it found it.
#[derive(Clone, Copy, Debug, PartialEq, Eq, Structural)]
pub enum EggsError {
    TradingNotInitialized,
    FeeAddressNotSet,
    InvalidFeeAmount,
    BelowMinimumValue,
    LoanExpired,
    UserHasActiveLoan,
    InsufficientCollateral,
    RepayAmountTooLarge,
    IncorrectRepaymentAmount,
    FeeCalculationError,
    LoanTooLong,
    PriceDecrease,
    InvalidParameter,
    InsufficientFunds,
    MaxSupplyExceeded,
    ContractBalanceInsufficient,
    /// A sum or a date left the range of its type.
    ArithmeticOverflow,
}

impl EggsError {
    /// The text shown for the error.
    pub open spec fn message_text(self) -> Seq<char> {
        match self {
            EggsError::TradingNotInitialized => "Operation requires trading to be initialized"@,
            EggsError::FeeAddressNotSet => "Fee address not set"@,
            EggsError::InvalidFeeAmount => "Invalid fee amount"@,
            EggsError::BelowMinimumValue => "Value must be above minimum"@,
            EggsError::LoanExpired => "Loan has expired"@,
            EggsError::UserHasActiveLoan => "User already has an active loan"@,
            EggsError::InsufficientCollateral => "Insufficient collateral"@,
            EggsError::RepayAmountTooLarge => "Repay amount too large"@,
            EggsError::IncorrectRepaymentAmount => "Incorrect repayment amount"@,
            EggsError::FeeCalculationError => "Fee calculation error"@,
            EggsError::LoanTooLong => "Loan too long"@,
            EggsError::PriceDecrease => "Price cannot decrease"@,
            EggsError::InvalidParameter => "Invalid parameter"@,
            EggsError::InsufficientFunds => "Insufficient funds"@,
            EggsError::MaxSupplyExceeded => "Max supply exceeded"@,
            EggsError::ContractBalanceInsufficient => "Contract balance insufficient"@,
            EggsError::ArithmeticOverflow => "Arithmetic overflow"@,
        }
    }

    /// The text shown for the error.
    pub fn message(&self) -> (text: &'static str)
        ensures
            text@ == self.message_text(),
    {
        match self {
            EggsError::TradingNotInitialized => "Operation requires trading to be initialized",
            EggsError::FeeAddressNotSet => "Fee address not set",
            EggsError::InvalidFeeAmount => "Invalid fee amount",
            EggsError::BelowMinimumValue => "Value must be above minimum",
            EggsError::LoanExpired => "Loan has expired",
            EggsError::UserHasActiveLoan => "User already has an active loan",
            EggsError::InsufficientCollateral => "Insufficient collateral",
            EggsError::RepayAmountTooLarge => "Repay amount too large",
            EggsError::IncorrectRepaymentAmount => "Incorrect repayment amount",
            EggsError::FeeCalculationError => "Fee calculation error",
            EggsError::LoanTooLong => "Loan too long",
            EggsError::PriceDecrease => "Price cannot decrease",
            EggsError::InvalidParameter => "Invalid parameter",
            EggsError::InsufficientFunds => "Insufficient funds",
            EggsError::MaxSupplyExceeded => "Max supply exceeded",
            EggsError::ContractBalanceInsufficient => "Contract balance insufficient",
            EggsError::ArithmeticOverflow => "Arithmetic overflow",
        }
    }
}

/// The reasons for which a purchase or a sale aborts: the part of
/// [`EggsError`] that trading alone can meet.
#[derive(Clone, Copy, Debug, PartialEq, Eq, Structural)]
pub enum TradingError {
    TradingNotInitialized,
    FeeAddressNotSet,
    InvalidFeeAmount,
    BelowMinimumValue,
    FeeCalculationError,
    PriceDecrease,
    InvalidParameter,
    InsufficientFunds,
    MaxSupplyExceeded,
    ContractBalanceInsufficient,
}

impl TradingError {
    /// The same reason as a general error.
    pub open spec fn widened(self) -> EggsError {
        match self {
            TradingError::TradingNotInitialized => EggsError::TradingNotInitialized,
            TradingError::FeeAddressNotSet => EggsError::FeeAddressNotSet,
            TradingError::InvalidFeeAmount => EggsError::InvalidFeeAmount,
            TradingError::BelowMinimumValue => EggsError::BelowMinimumValue,
            TradingError::FeeCalculationError => EggsError::FeeCalculationError,
            TradingError::PriceDecrease => EggsError::PriceDecrease,
            TradingError::InvalidParameter => EggsError::InvalidParameter,
            TradingError::InsufficientFunds => EggsError::InsufficientFunds,
            TradingError::MaxSupplyExceeded => EggsError::MaxSupplyExceeded,
            TradingError::ContractBalanceInsufficient => EggsError::ContractBalanceInsufficient,
        }
    }

    /// The same reason as a general error.
    pub fn widen(self) -> (error: EggsError)
        ensures
            error == self.widened(),
    {
        match self {
            TradingError::TradingNotInitialized => EggsError::TradingNotInitialized,
            TradingError::FeeAddressNotSet => EggsError::FeeAddressNotSet,
            TradingError::InvalidFeeAmount => EggsError::InvalidFeeAmount,
            TradingError::BelowMinimumValue => EggsError::BelowMinimumValue,
            TradingError::FeeCalculationError => EggsError::FeeCalculationError,
            TradingError::PriceDecrease => EggsError::PriceDecrease,
            TradingError::InvalidParameter => EggsError::InvalidParameter,
            TradingError::InsufficientFunds => EggsError::InsufficientFunds,
            TradingError::MaxSupplyExceeded => EggsError::MaxSupplyExceeded,
            TradingError::ContractBalanceInsufficient => EggsError::ContractBalanceInsufficient,
        }
    }

    /// The text shown for the error.
    pub fn message(&self) -> (text: &'static str)
        ensures
            text@ == self.widened().message_text(),
    {
        self.widen().message()
    }
}

} // verus!

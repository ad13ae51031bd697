//! What an instruction works on, as plain values, with the conversions and
//! the safety check at the balances it holds.

use vstd::prelude::*;
use crate::address::Address;
use crate::math::{low64, mul_div};
use crate::mushi_program::constants::FEE_BASE_1000;
use crate::mushi_program::error::MushiProgramError;
use crate::mushi_program::state::{DailyStats, GlobalStats, MainState, UserLoan};
use crate::mushi_program::transfers::Transfers;
use crate::mushi_program::utils::{get_interest_fee, interest};
use crate::pricing::{
    leverage, no_trade, no_trade_ceil, price, quote_leverage, quote_no_trade,
    quote_no_trade_ceil, quote_price, quote_trade_buy, quote_trade_sell, trade_buy, trade_sell,
};

verus! {

/// The accounts every instruction sees.
#[derive(Clone, Copy, Debug)]
pub struct ACommon {
    /// The caller.
    pub user: Address,
    /// The parameters of the protocol.
    pub main_state: MainState,
    /// The ledger of the protocol.
    pub global_state: GlobalStats,
    /// The bucket of the day the liquidation sweep stands on.
    pub last_liquidation_date_state: DailyStats,
    /// The caller's loan.
    pub user_loan: UserLoan,
    /// Tokens the vault holds for all loans.
    pub token_vault_amount: u64,
    /// Base units of the quote asset the vault holds.
    pub quote_vault_amount: u64,
}

/// The accounts of a purchase that pays a referrer.
#[derive(Clone, Copy, Debug)]
pub struct ACommonExtReferral {
    pub common: ACommon,
    /// Who referred the buyer.
    pub referral: Address,
}

/// The accounts of an instruction that opens a loan.
#[derive(Clone, Copy, Debug)]
pub struct ACommonExtLoan {
    pub common: ACommon,
    /// The bucket of the day the loan will end on.
    pub daily_state_end_date: DailyStats,
}

/// The accounts of an instruction that opens a loan in place of one that
/// has run out.
#[derive(Clone, Copy, Debug)]
pub struct ACommonExtLoan2 {
    pub common: ACommon,
    /// The bucket of the day the old loan ended on.
    pub daily_state_old_end_date: DailyStats,
    /// The bucket of the day the new loan will end on.
    pub daily_state_end_date: DailyStats,
}

/// The accounts of an instruction on an open loan.
#[derive(Clone, Copy, Debug)]
pub struct ACommonExtSubLoan {
    pub common: ACommon,
    /// The bucket of the day the loan ends on.
    pub daily_state_old_end_date: DailyStats,
}

/// The accounts of a prolongation.
#[derive(Clone, Copy, Debug)]
pub struct ACommonExtExtendLoan {
    pub common: ACommon,
    /// The bucket of the day the loan ends on.
    pub daily_state_old_end_date: DailyStats,
    /// The bucket of the day the loan will end on.
    pub daily_state_new_end_date: DailyStats,
}

impl ACommon {
    /// Whether the balances of `after` are those of these accounts with the
    /// transfers carried out.
    pub open spec fn settles(self, after: ACommon, transfers: Transfers) -> bool {
        &&& after.quote_vault_amount == self.quote_vault_amount + transfers.quote_in()
        &&& after.token_vault_amount == self.token_vault_amount + transfers.tokens_in()
        &&& after.global_state.token_supply == self.global_state.token_supply
            + transfers.supply_in()
    }

    /// The backing with `es_amount` base units still to arrive: what open
    /// loans owe, what the vault holds, and what is staked elsewhere.
    pub open spec fn backing(self, es_amount: u64) -> int {
        self.global_state.total_borrowed + self.quote_vault_amount + es_amount
            + self.global_state.total_eclipse_token_staked
    }

    /// Tokens minted for `es_amount` base units that are still to arrive.
    pub open spec fn buy_quote(self, es_amount: u64) -> Result<u64, MushiProgramError> {
        if self.backing(es_amount) > u64::MAX {
            Err(MushiProgramError::ArithmeticOverflow)
        } else if self.backing(0) == 0 {
            Err(MushiProgramError::InvalidInput)
        } else {
            Ok(
                low64(
                    trade_buy(
                        es_amount as int,
                        self.global_state.token_supply as int,
                        self.backing(es_amount),
                    ),
                ) as u64,
            )
        }
    }

    /// Base units paid for `mushi_amount` tokens.
    pub open spec fn sell_quote(self, mushi_amount: u64) -> Result<u64, MushiProgramError> {
        if self.backing(0) > u64::MAX {
            Err(MushiProgramError::ArithmeticOverflow)
        } else if self.global_state.token_supply == 0 {
            Err(MushiProgramError::InvalidInput)
        } else {
            Ok(
                low64(
                    trade_sell(
                        mushi_amount as int,
                        self.global_state.token_supply as int,
                        self.backing(0),
                    ),
                ) as u64,
            )
        }
    }

    /// Collateral minted for a leveraged position of `es_amount` base units.
    /// `total_es_amount` is what is still to arrive, `fee` what is kept out of
    /// the backing.
    pub open spec fn leverage_quote(self, es_amount: u64, fee: u64, total_es_amount: u64) -> Result<
        u64,
        MushiProgramError,
    > {
        if self.backing(total_es_amount) > u64::MAX || self.backing(total_es_amount) < fee {
            Err(MushiProgramError::ArithmeticOverflow)
        } else if self.backing(total_es_amount) == fee {
            Err(MushiProgramError::InvalidInput)
        } else {
            Ok(
                low64(
                    leverage(
                        es_amount as int,
                        fee as int,
                        self.global_state.token_supply as int,
                        self.backing(total_es_amount),
                    ),
                ) as u64,
            )
        }
    }

    /// Token value of `es_amount` base units, rounded up.
    pub open spec fn collateral_quote(self, es_amount: u64) -> Result<u64, MushiProgramError> {
        if self.backing(0) > u64::MAX {
            Err(MushiProgramError::ArithmeticOverflow)
        } else if self.backing(0) == 0 {
            Err(MushiProgramError::InvalidInput)
        } else {
            Ok(
                low64(
                    no_trade_ceil(
                        es_amount as int,
                        self.global_state.token_supply as int,
                        self.backing(0),
                    ),
                ) as u64,
            )
        }
    }

    /// Token value of `es_amount` base units, rounded down.
    pub open spec fn value_quote(self, es_amount: u64) -> Result<u64, MushiProgramError> {
        if self.backing(0) > u64::MAX {
            Err(MushiProgramError::ArithmeticOverflow)
        } else if self.backing(0) == 0 {
            Err(MushiProgramError::InvalidInput)
        } else {
            Ok(
                low64(
                    no_trade(
                        es_amount as int,
                        self.global_state.token_supply as int,
                        self.backing(0),
                    ),
                ) as u64,
            )
        }
    }

    /// The backing with `es_amount` base units still to arrive, or
    /// `ArithmeticOverflow` where it passes 64 bits.
    pub fn get_backing(&self, es_amount: u64) -> (r: Result<u64, MushiProgramError>)
        ensures
            r == (if self.backing(es_amount) <= u64::MAX {
                Ok::<u64, MushiProgramError>(self.backing(es_amount) as u64)
            } else {
                Err::<u64, MushiProgramError>(MushiProgramError::ArithmeticOverflow)
            }),
    {
        let wide: u128 = (self.global_state.total_borrowed as u128) + (
        self.quote_vault_amount as u128) + (es_amount as u128) + (
        self.global_state.total_eclipse_token_staked as u128);
        if wide > u64::MAX as u128 {
            Err(MushiProgramError::ArithmeticOverflow)
        } else {
            Ok(wide as u64)
        }
    }

    /// Tokens minted for `es_amount` base units that are still to arrive.
    /// `InvalidInput` where the backing is empty.
    pub fn eclipse_to_mushi(&self, es_amount: u64) -> (r: Result<u64, MushiProgramError>)
        ensures
            r == self.buy_quote(es_amount),
    {
        let backing = self.get_backing(es_amount)?;
        match quote_trade_buy(es_amount, self.global_state.token_supply, backing) {
            Some(mushi) => Ok(mushi),
            None => Err(MushiProgramError::InvalidInput),
        }
    }

    /// Base units paid for `mushi_amount` tokens. `InvalidInput` where no
    /// token is outstanding.
    pub fn mushi_to_eclipse(&self, mushi_amount: u64) -> (r: Result<u64, MushiProgramError>)
        ensures
            r == self.sell_quote(mushi_amount),
    {
        let backing = self.get_backing(0)?;
        match quote_trade_sell(mushi_amount, self.global_state.token_supply, backing) {
            Some(es) => Ok(es),
            None => Err(MushiProgramError::InvalidInput),
        }
    }

    /// Collateral minted for a leveraged position. `ArithmeticOverflow`
    /// where `fee` exceeds the backing, `InvalidInput` where it equals it.
    pub fn eclipse_to_mushi_lev(&self, es_amount: u64, fee: u64, total_es_amount: u64) -> (r:
        Result<u64, MushiProgramError>)
        ensures
            r == self.leverage_quote(es_amount, fee, total_es_amount),
    {
        let backing = self.get_backing(total_es_amount)?;
        if backing < fee {
            return Err(MushiProgramError::ArithmeticOverflow);
        }
        match quote_leverage(es_amount, fee, self.global_state.token_supply, backing) {
            Some(mushi) => Ok(mushi),
            None => Err(MushiProgramError::InvalidInput),
        }
    }

    /// Token value of `es_amount` base units, rounded up. `InvalidInput`
    /// where the backing is empty.
    pub fn eclipse_to_mushi_no_trade_ceil(&self, es_amount: u64) -> (r: Result<
        u64,
        MushiProgramError,
    >)
        ensures
            r == self.collateral_quote(es_amount),
    {
        let backing = self.get_backing(0)?;
        match quote_no_trade_ceil(es_amount, self.global_state.token_supply, backing) {
            Some(mushi) => Ok(mushi),
            None => Err(MushiProgramError::InvalidInput),
        }
    }

    /// Token value of `es_amount` base units, rounded down. `InvalidInput`
    /// where the backing is empty.
    pub fn eclipse_to_mushi_no_trade(&self, es_amount: u64) -> (r: Result<u64, MushiProgramError>)
        ensures
            r == self.value_quote(es_amount),
    {
        let backing = self.get_backing(0)?;
        match quote_no_trade(es_amount, self.global_state.token_supply, backing) {
            Some(mushi) => Ok(mushi),
            None => Err(MushiProgramError::InvalidInput),
        }
    }

    /// The backing the safety check reckons with: the present one, with
    /// `es_amount` base units added (`plus`) or taken off.
    pub open spec fn checked_backing(self, es_amount: u64, plus: bool) -> int {
        if plus {
            self.backing(0) + es_amount
        } else {
            self.backing(0) - es_amount
        }
    }

    /// The price the safety check finds, in 64 bits.
    pub open spec fn new_price(self, es_amount: u64, plus: bool) -> u64 {
        low64(
            price(self.checked_backing(es_amount, plus), self.global_state.token_supply as int),
        ) as u64
    }

    /// The ledger after the safety check: the vault, with `mushi_amount`
    /// tokens still to arrive, covers the collateral of all loans, and the
    /// price has not fallen. The result holds the new price.
    pub open spec fn checked(self, es_amount: u64, plus: bool, mushi_amount: u64) -> Result<
        GlobalStats,
        MushiProgramError,
    > {
        if self.backing(0) > u64::MAX || !(0 <= self.checked_backing(es_amount, plus) <= u64::MAX) {
            Err(MushiProgramError::ArithmeticOverflow)
        } else if self.global_state.token_supply == 0 {
            Err(MushiProgramError::InvalidInput)
        } else if self.token_vault_amount + mushi_amount > u64::MAX {
            Err(MushiProgramError::ArithmeticOverflow)
        } else if self.token_vault_amount + mushi_amount < self.global_state.total_collateral {
            Err(MushiProgramError::SafetyCheckCollateralFailed)
        } else if self.new_price(es_amount, plus) < self.global_state.last_price {
            Err(MushiProgramError::SafetyCheckPriceFailed)
        } else {
            Ok(GlobalStats { last_price: self.new_price(es_amount, plus), ..self.global_state })
        }
    }

    /// The safety check that ends every instruction, at a backing that is
    /// `es_amount` base units above (`plus`) or below the one the accounts
    /// show. Fails with `SafetyCheckCollateralFailed` where the vault holds
    /// fewer tokens than the collateral of all loans, with
    /// `SafetyCheckPriceFailed` where the price is below the last one
    /// recorded, and with `InvalidInput` where no token is outstanding. On
    /// success the new price is recorded; on an error nothing changes.
    pub fn safety_check(&mut self, es_amount: u64, plus: bool) -> (r: Result<
        (),
        MushiProgramError,
    >)
        ensures
            match old(self).checked(es_amount, plus, 0) {
                Ok(g) => r is Ok && *final(self) == (ACommon { global_state: g, ..*old(self) }),
                Err(e) => r == Err::<(), MushiProgramError>(e) && *final(self) == *old(self),
            },
            r is Ok ==> final(self).global_state.last_price >= old(self).global_state.last_price,
    {
        self.safety_check_borrow(es_amount, plus, 0)
    }

    /// The safety check with `mushi_amount` tokens counted that are on their
    /// way into the vault.
    pub fn safety_check_borrow(&mut self, es_amount: u64, plus: bool, mushi_amount: u64) -> (r:
        Result<(), MushiProgramError>)
        ensures
            match old(self).checked(es_amount, plus, mushi_amount) {
                Ok(g) => r is Ok && *final(self) == (ACommon { global_state: g, ..*old(self) }),
                Err(e) => r == Err::<(), MushiProgramError>(e) && *final(self) == *old(self),
            },
            r is Ok ==> final(self).global_state.last_price >= old(self).global_state.last_price,
    {
        let present = self.get_backing(0)?;
        let backing = if plus {
            present.checked_add(es_amount)
        } else {
            present.checked_sub(es_amount)
        };
        let backing = match backing {
            Some(b) => b,
            None => {
                return Err(MushiProgramError::ArithmeticOverflow);
            },
        };
        let new_price = match quote_price(backing, self.global_state.token_supply) {
            Some(p) => p,
            None => {
                return Err(MushiProgramError::InvalidInput);
            },
        };
        let total_collateral = match self.token_vault_amount.checked_add(mushi_amount) {
            Some(sum) => sum,
            None => {
                return Err(MushiProgramError::ArithmeticOverflow);
            },
        };
        if total_collateral < self.global_state.total_collateral {
            return Err(MushiProgramError::SafetyCheckCollateralFailed);
        }
        if new_price < self.global_state.last_price {
            return Err(MushiProgramError::SafetyCheckPriceFailed);
        }
        self.global_state.last_price = new_price;
        Ok(())
    }

    /// Whether the caller's loan has run out at `current_date`.
    pub fn is_loan_expired(&self, current_date: i64) -> (expired: bool)
        ensures
            expired == self.user_loan.expired_at(current_date as int),
    {
        self.user_loan.end_date < current_date
    }

    /// The fee of a leveraged position of `es_amount` base units for
    /// `number_of_days` days.
    pub open spec fn leverage_fee_of(self, es_amount: u64, number_of_days: u64) -> Result<
        u64,
        MushiProgramError,
    > {
        if number_of_days >= 366 {
            Err(MushiProgramError::InvalidNumberOfDays)
        } else if es_amount * self.main_state.buy_fee_leverage > u64::MAX || mul_div(
            es_amount as int,
            self.main_state.buy_fee_leverage as int,
            1000,
        ) + interest(es_amount, number_of_days) > u64::MAX {
            Err(MushiProgramError::ArithmeticOverflow)
        } else {
            Ok(
                (mul_div(es_amount as int, self.main_state.buy_fee_leverage as int, 1000)
                    + interest(es_amount, number_of_days)) as u64,
            )
        }
    }

    /// The fee of a leveraged position: the leverage fee in parts of a
    /// thousand, plus the interest. `InvalidNumberOfDays` for 366 days or
    /// more.
    pub fn leverage_fee(&self, es_amount: u64, number_of_days: u64) -> (r: Result<
        u64,
        MushiProgramError,
    >)
        ensures
            r == self.leverage_fee_of(es_amount, number_of_days),
    {
        if number_of_days >= 366 {
            return Err(MushiProgramError::InvalidNumberOfDays);
        }
        let mint_fee = match es_amount.checked_mul(self.main_state.buy_fee_leverage) {
            Some(product) => product / FEE_BASE_1000,
            None => {
                return Err(MushiProgramError::ArithmeticOverflow);
            },
        };
        let interest = get_interest_fee(es_amount, number_of_days);
        match mint_fee.checked_add(interest) {
            Some(fee) => Ok(fee),
            None => Err(MushiProgramError::ArithmeticOverflow),
        }
    }
}

} // verus!

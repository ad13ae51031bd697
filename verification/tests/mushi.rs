use bonding_core::address::Address;
use bonding_core::mushi_program::utils::{
    add_loans_by_date, get_interest_fee, liquidate, sub_loans_by_date,
};
use bonding_core::mushi_program::{
    borrow, borrow_more, buy, buy_with_referral, close_position, extend_loan,
    flash_close_position, init_main_state, leverage, liquidate_expired_loans, remove_collateral,
    repay, sell, start, unstake, update_main_state, ACommon, ACommonExtExtendLoan,
    ACommonExtLoan, ACommonExtReferral, ACommonExtSubLoan, AStart, DailyStats, DailyStatsResult,
    GlobalStats, InitializeInput, MainState, MushiProgramError, Transfers, UpdateMainStateInput,
    UserLoan,
};

const NOW: i64 = 1_700_000_000;
const CURSOR: i64 = 1_700_006_400;
const DAY: i64 = 86_400;

fn address(byte: u8) -> Address {
    Address { bytes: [byte; 32] }
}

fn main_state() -> MainState {
    MainState {
        admin: address(2),
        fee_receiver: address(7),
        buy_fee: 975,
        sell_fee: 975,
        buy_fee_leverage: 10,
        quote_token: address(3),
        stake_token: address(4),
        stake_vault_program: address(6),
        stake_enabled: false,
        started: true,
    }
}

fn global_state() -> GlobalStats {
    GlobalStats {
        last_liquidation_date: CURSOR,
        total_borrowed: 0,
        total_collateral: 0,
        total_eclipse_token_staked: 0,
        token_supply: 1_000_000_000_000,
        last_price: 1_000_000_000,
        base_token: address(1),
    }
}

fn empty_bucket() -> DailyStats {
    DailyStats { date: 0, borrowed: 0, collateral: 0 }
}

fn no_loan() -> UserLoan {
    UserLoan { collateral: 0, borrowed: 0, end_date: 0, number_of_days: 0 }
}

fn accounts() -> ACommon {
    ACommon {
        user: address(5),
        main_state: main_state(),
        global_state: global_state(),
        last_liquidation_date_state: empty_bucket(),
        user_loan: no_loan(),
        token_vault_amount: 0,
        quote_vault_amount: 1_000_000_000_000,
    }
}

fn nothing() -> Transfers {
    Transfers {
        quote_to_vault: 0,
        quote_to_fee_receiver: 0,
        quote_to_referral: 0,
        quote_to_user: 0,
        fee_from_vault: 0,
        minted_to_user: 0,
        minted_to_vault: 0,
        burned_from_user: 0,
        burned_from_vault: 0,
        tokens_to_vault: 0,
        tokens_to_user: 0,
    }
}

fn with_loan() -> ACommonExtSubLoan {
    let mut ctx = ACommonExtLoan { common: accounts(), daily_state_end_date: empty_bucket() };
    borrow(&mut ctx, NOW, 10, 1_000_000_000).unwrap();
    ACommonExtSubLoan { common: ctx.common, daily_state_old_end_date: ctx.daily_state_end_date }
}

fn loan_at_par() -> ACommonExtSubLoan {
    let mut common = accounts();
    common.global_state.token_supply = 1_000_000;
    common.global_state.total_borrowed = 99_000;
    common.global_state.total_collateral = 100_000;
    common.global_state.last_price = 0;
    common.quote_vault_amount = 901_000;
    common.token_vault_amount = 100_000;
    common.user_loan = UserLoan {
        collateral: 100_000,
        borrowed: 99_000,
        end_date: CURSOR + 9 * DAY,
        number_of_days: 10,
    };
    ACommonExtSubLoan {
        common,
        daily_state_old_end_date: DailyStats {
            date: CURSOR + 9 * DAY,
            borrowed: 99_000,
            collateral: 100_000,
        },
    }
}

#[test]
fn a_purchase_at_a_backing_of_one_million() {
    // The vault holds 900_000 before the deposit of 100_000.
    let mut ctx = accounts();
    ctx.global_state.token_supply = 1_000_000;
    ctx.global_state.last_price = 900_000_000;
    ctx.quote_vault_amount = 900_000;
    let transfers = buy(&mut ctx, NOW, 100_000, None).unwrap();
    assert_eq!(transfers.minted_to_user, 108_333);
    assert_eq!(transfers.quote_to_fee_receiver, 1_250);
    assert_eq!(transfers.quote_to_vault, 98_750);
    assert_eq!(ctx.global_state.token_supply, 1_108_333);
    assert_eq!(ctx.quote_vault_amount, 998_750);
    assert_eq!(ctx.global_state.last_price, 901_128_090);
    assert!(ctx.global_state.last_price >= 900_000_000);
}

#[test]
fn buy_splits_the_deposit_between_treasury_and_vault() {
    let mut ctx = accounts();
    let transfers = buy(&mut ctx, NOW, 1_000_000_000, Some(1_000_000_000)).unwrap();
    assert_eq!(
        transfers,
        Transfers {
            quote_to_vault: 987_500_000,
            quote_to_fee_receiver: 12_500_000,
            minted_to_user: 975_000_000,
            ..nothing()
        }
    );
    assert_eq!(ctx.global_state.token_supply, 1_000_975_000_000);
    assert_eq!(ctx.quote_vault_amount, 1_000_987_500_000);
    assert_eq!(ctx.global_state.last_price, 1_000_012_487);
}

#[test]
fn buy_with_referral_pays_the_referrer() {
    let mut ctx = ACommonExtReferral { common: accounts(), referral: address(8) };
    let transfers = buy_with_referral(&mut ctx, NOW, 1_000_000_000, None).unwrap();
    assert_eq!(
        transfers,
        Transfers {
            quote_to_vault: 987_500_000,
            quote_to_fee_receiver: 10_000_000,
            quote_to_referral: 2_500_000,
            minted_to_user: 975_000_000,
            ..nothing()
        }
    );
    assert_eq!(ctx.common.quote_vault_amount, 1_000_987_500_000);
    assert_eq!(ctx.referral.bytes, [8u8; 32]);
}

#[test]
fn buy_respects_the_least_output() {
    let mut ctx = accounts();
    assert_eq!(
        buy(&mut ctx, NOW, 1_000_000_000, Some(1_000_000_001)),
        Err(MushiProgramError::TooSmallOutputAmount)
    );
    assert_eq!(ctx.global_state.token_supply, 1_000_000_000_000);
}

#[test]
fn buy_refusals() {
    let mut ctx = accounts();
    ctx.main_state.started = false;
    assert_eq!(buy(&mut ctx, NOW, 1_000_000_000, None), Err(MushiProgramError::NotStarted));
    let mut ctx = accounts();
    // 80_000 * 125 / 10_000 = 1000, which does not exceed the minimum.
    assert_eq!(buy(&mut ctx, NOW, 80_000, None), Err(MushiProgramError::TooSmallTeamFee));
    assert!(buy(&mut ctx, NOW, 80_080, None).is_ok());
    let mut ctx = accounts();
    ctx.global_state.token_supply = 50_000_000_000_000_000;
    ctx.global_state.last_price = 0;
    assert_eq!(
        buy(&mut ctx, NOW, 1_000_000_000, None),
        Err(MushiProgramError::MaxSupplyExceeded)
    );
    let mut ctx = accounts();
    ctx.quote_vault_amount = 0;
    assert_eq!(buy(&mut ctx, NOW, 1_000_000_000, None), Err(MushiProgramError::InvalidInput));
    let mut ctx = accounts();
    ctx.global_state.last_price = 1_000_012_488;
    assert_eq!(
        buy(&mut ctx, NOW, 1_000_000_000, None),
        Err(MushiProgramError::SafetyCheckPriceFailed)
    );
    let mut ctx = accounts();
    ctx.global_state.total_collateral = 1;
    assert_eq!(
        buy(&mut ctx, NOW, 1_000_000_000, None),
        Err(MushiProgramError::SafetyCheckCollateralFailed)
    );
}

#[test]
fn sell_pays_the_seller_and_the_treasury() {
    let mut ctx = accounts();
    buy(&mut ctx, NOW, 1_000_000_000, None).unwrap();
    let transfers = sell(&mut ctx, NOW, 975_000_000, Some(975_012_175)).unwrap();
    assert_eq!(
        transfers,
        Transfers {
            quote_to_user: 950_636_870,
            fee_from_vault: 12_187_652,
            burned_from_user: 975_000_000,
            ..nothing()
        }
    );
    assert_eq!(ctx.global_state.token_supply, 1_000_000_000_000);
    assert_eq!(ctx.quote_vault_amount, 1_000_024_675_478);
    assert_eq!(ctx.global_state.last_price, 1_000_024_675);
    assert!(transfers.quote_to_user <= 1_000_000_000);
}

#[test]
fn sell_refusals() {
    let mut ctx = accounts();
    assert_eq!(
        sell(&mut ctx, NOW, 975_000_000, Some(975_000_001)),
        Err(MushiProgramError::TooSmallOutputAmount)
    );
    // 80_079 * 125 / 10_000 = 1000, which does not exceed the minimum.
    assert_eq!(sell(&mut ctx, NOW, 80_079, None), Err(MushiProgramError::TooSmallInputAmount));
    // A quote of 100_000 has a fee of 1_250.
    let transfers = sell(&mut ctx, NOW, 100_000, None).unwrap();
    assert_eq!(transfers.fee_from_vault, 1_250);
    assert_eq!(transfers.quote_to_user, 97_500);
    assert!(sell(&mut ctx, NOW, 80_080, None).is_ok());
    let mut ctx = accounts();
    assert_eq!(
        sell(&mut ctx, NOW, 1_000_000_000_001, None),
        Err(MushiProgramError::InsufficientMushiAmountOnUserAta)
    );
    ctx.global_state.token_supply = 0;
    assert_eq!(sell(&mut ctx, NOW, 1, None), Err(MushiProgramError::InvalidInput));
}

#[test]
fn staked_quote_asset_counts_towards_the_backing() {
    let mut ctx = accounts();
    ctx.quote_vault_amount = 400;
    ctx.global_state.total_borrowed = 300;
    ctx.global_state.total_eclipse_token_staked = 300;
    ctx.global_state.token_supply = 3000;
    assert_eq!(ctx.get_backing(0), Ok(1000));
    assert_eq!(ctx.get_backing(24), Ok(1024));
    assert_eq!(ctx.get_backing(u64::MAX), Err(MushiProgramError::ArithmeticOverflow));
    assert_eq!(ctx.mushi_to_eclipse(10), Ok(3));
    assert_eq!(ctx.eclipse_to_mushi(100), Ok(300));
    assert_eq!(ctx.eclipse_to_mushi_no_trade(7), Ok(21));
    assert_eq!(ctx.eclipse_to_mushi_no_trade_ceil(7), Ok(21));
    ctx.quote_vault_amount = 401;
    assert_eq!(ctx.eclipse_to_mushi_no_trade(7), Ok(20));
    assert_eq!(ctx.eclipse_to_mushi_no_trade_ceil(7), Ok(21));
    // ceil(7 * 3000 / (1001 + 99 - 100))
    assert_eq!(ctx.eclipse_to_mushi_lev(7, 100, 99), Ok(21));
    assert_eq!(ctx.eclipse_to_mushi_lev(7, 1100, 99), Err(MushiProgramError::InvalidInput));
    assert_eq!(ctx.eclipse_to_mushi_lev(7, 1101, 99), Err(MushiProgramError::ArithmeticOverflow));
    assert!(!ctx.is_loan_expired(0));
    assert!(ctx.is_loan_expired(1));
}

#[test]
fn the_leverage_fee_is_the_mint_fee_plus_the_interest() {
    let ctx = accounts();
    assert_eq!(ctx.leverage_fee(10_000_000_000, 30), Ok(142_054_790));
    assert_eq!(ctx.leverage_fee(10_000_000_000, 366), Err(MushiProgramError::InvalidNumberOfDays));
    assert_eq!(ctx.leverage_fee(u64::MAX, 30), Err(MushiProgramError::ArithmeticOverflow));
}

#[test]
fn mushi_interest_is_prorated_over_the_year() {
    assert_eq!(get_interest_fee(1_000_000_000, 10), 2_068_493);
    assert_eq!(get_interest_fee(1_000_000_000, 0), 1_000_000);
    assert_eq!(get_interest_fee(1_000_000_000, 365), 40_000_000);
    assert_eq!(get_interest_fee(1_000_000_000, 1), 1_106_849);
    assert_eq!(get_interest_fee(10_000_000_000, 30), 42_054_790);
}

#[test]
fn the_safety_check_reckons_with_what_is_on_its_way() {
    let mut ctx = accounts();
    ctx.global_state.last_price = 0;
    ctx.global_state.total_collateral = 10;
    ctx.token_vault_amount = 4;
    assert_eq!(ctx.safety_check(0, true), Err(MushiProgramError::SafetyCheckCollateralFailed));
    assert_eq!(
        ctx.safety_check_borrow(0, true, 5),
        Err(MushiProgramError::SafetyCheckCollateralFailed)
    );
    assert_eq!(ctx.safety_check_borrow(1_000_000_000_000, true, 6), Ok(()));
    assert_eq!(ctx.global_state.last_price, 2_000_000_000);
    assert_eq!(
        ctx.safety_check_borrow(999_999_999_999, true, 6),
        Err(MushiProgramError::SafetyCheckPriceFailed)
    );
    ctx.global_state.last_price = 500_000_000;
    assert_eq!(ctx.safety_check_borrow(500_000_000_000, false, 6), Ok(()));
    assert_eq!(ctx.global_state.last_price, 500_000_000);
    assert_eq!(
        ctx.safety_check_borrow(1_000_000_000_001, false, 6),
        Err(MushiProgramError::ArithmeticOverflow)
    );
}

#[test]
fn mushi_borrow_opens_a_loan_against_the_callers_tokens() {
    let mut ctx = ACommonExtLoan { common: accounts(), daily_state_end_date: empty_bucket() };
    let transfers = borrow(&mut ctx, NOW, 10, 1_000_000_000).unwrap();
    assert_eq!(
        transfers,
        Transfers {
            quote_to_user: 987_931_507,
            fee_from_vault: 620_547,
            tokens_to_vault: 1_000_000_000,
            ..nothing()
        }
    );
    assert_eq!(
        ctx.common.user_loan,
        UserLoan {
            collateral: 1_000_000_000,
            borrowed: 990_000_000,
            end_date: 1_700_870_400,
            number_of_days: 10
        }
    );
    assert_eq!(
        ctx.daily_state_end_date,
        DailyStats { date: 1_700_870_400, borrowed: 990_000_000, collateral: 1_000_000_000 }
    );
    assert_eq!(ctx.common.global_state.total_borrowed, 990_000_000);
    assert_eq!(ctx.common.global_state.total_collateral, 1_000_000_000);
    assert_eq!(ctx.common.quote_vault_amount, 999_011_447_946);
    assert_eq!(ctx.common.token_vault_amount, 1_000_000_000);
    assert_eq!(ctx.common.global_state.last_price, 1_000_001_447);
    assert_eq!(
        ctx.daily_state_end_date.result(),
        DailyStatsResult { date: 1_700_870_400, borrowed: 990_000_000, collateral: 1_000_000_000 }
    );
}

#[test]
fn borrow_refusals() {
    let fresh = || ACommonExtLoan { common: accounts(), daily_state_end_date: empty_bucket() };
    let mut ctx = fresh();
    assert_eq!(borrow(&mut ctx, NOW, 366, 1_000_000_000), Err(MushiProgramError::InvalidNumberOfDays));
    assert_eq!(borrow(&mut ctx, NOW, 10, 0), Err(MushiProgramError::InvalidEclipseAmount));
    assert_eq!(borrow(&mut ctx, NOW, 10, 1_611_000), Err(MushiProgramError::InvalidFeeAmount));
    ctx.daily_state_end_date = DailyStats { date: CURSOR, borrowed: 1, collateral: 1 };
    assert_eq!(
        borrow(&mut ctx, NOW, 10, 1_000_000_000),
        Err(MushiProgramError::InvalidDailyStatsAccount)
    );
    let mut ctx = fresh();
    ctx.common.global_state.total_borrowed = 999_999_000_000;
    ctx.common.quote_vault_amount = 1_000_000;
    assert_eq!(
        borrow(&mut ctx, NOW, 10, 1_000_000_000),
        Err(MushiProgramError::InsufficientEclipseAmountOnVault)
    );
    let open = with_loan();
    let mut ctx = ACommonExtLoan { common: open.common, daily_state_end_date: empty_bucket() };
    assert_eq!(borrow(&mut ctx, NOW, 10, 1_000_000_000), Err(MushiProgramError::InvalidLoanAmount));
    assert_eq!(ctx.common.user_loan.borrowed, 990_000_000);
}

#[test]
fn leverage_mints_the_collateral_into_the_vault() {
    let mut ctx = ACommonExtLoan { common: accounts(), daily_state_end_date: empty_bucket() };
    let transfers = leverage(&mut ctx, NOW, 30, 10_000_000_000).unwrap();
    assert_eq!(
        transfers,
        Transfers {
            quote_to_vault: 240_634_242,
            fee_from_vault: 42_616_437,
            minted_to_vault: 9_856_965_050,
            ..nothing()
        }
    );
    assert_eq!(
        ctx.common.user_loan,
        UserLoan {
            collateral: 9_856_965_050,
            borrowed: 9_759_365_757,
            end_date: 1_702_598_400,
            number_of_days: 30
        }
    );
    assert_eq!(ctx.common.global_state.token_supply, 1_009_856_965_050);
    assert_eq!(ctx.common.token_vault_amount, 9_856_965_050);
    assert_eq!(ctx.common.quote_vault_amount, 1_000_198_017_805);
    assert_eq!(ctx.common.global_state.last_price, 1_000_099_438);
}

#[test]
fn leverage_refusals() {
    let fresh = || ACommonExtLoan { common: accounts(), daily_state_end_date: empty_bucket() };
    let mut ctx = fresh();
    ctx.common.main_state.started = false;
    assert_eq!(leverage(&mut ctx, NOW, 30, 10_000_000_000), Err(MushiProgramError::NotStarted));
    let mut ctx = fresh();
    assert_eq!(
        leverage(&mut ctx, NOW, 366, 10_000_000_000),
        Err(MushiProgramError::InvalidNumberOfDays)
    );
    assert_eq!(leverage(&mut ctx, NOW, 30, 0), Err(MushiProgramError::InvalidEclipseAmount));
    assert_eq!(leverage(&mut ctx, NOW, 30, 100_000), Err(MushiProgramError::InvalidFeeAmount));
    ctx.common.global_state.token_supply = 50_000_000_000_000_000 - 1;
    ctx.common.global_state.last_price = 0;
    assert_eq!(
        leverage(&mut ctx, NOW, 30, 10_000_000_000),
        Err(MushiProgramError::MaxSupplyExceeded)
    );
}

#[test]
fn mushi_borrow_more_asks_only_for_the_collateral_that_is_short() {
    let mut ctx = with_loan();
    let transfers = borrow_more(&mut ctx, NOW, 500_000_000).unwrap();
    assert_eq!(
        transfers,
        Transfers {
            quote_to_user: 495_000_000 - 1_034_246,
            fee_from_vault: 310_273,
            tokens_to_vault: 499_997_843,
            ..nothing()
        }
    );
    assert_eq!(
        ctx.common.user_loan,
        UserLoan {
            collateral: 1_499_997_843,
            borrowed: 1_485_000_000,
            end_date: 1_700_870_400,
            number_of_days: 10
        }
    );
    assert_eq!(ctx.daily_state_old_end_date.borrowed, 1_485_000_000);
    assert_eq!(ctx.daily_state_old_end_date.collateral, 1_499_997_843);
    assert_eq!(ctx.common.global_state.total_borrowed, 1_485_000_000);
    assert_eq!(ctx.common.global_state.total_collateral, 1_499_997_843);
    assert_eq!(ctx.common.quote_vault_amount, 998_517_171_919);
}

#[test]
fn borrow_more_refusals() {
    let mut ctx = with_loan();
    assert_eq!(
        borrow_more(&mut ctx, 1_700_870_401, 500_000_000),
        Err(MushiProgramError::LoanExpired)
    );
    assert_eq!(borrow_more(&mut ctx, NOW, 0), Err(MushiProgramError::InvalidEclipseAmount));
    // The collateral no longer covers the debt.
    ctx.common.user_loan.collateral = 900_000_000;
    assert_eq!(
        borrow_more(&mut ctx, NOW, 500_000_000),
        Err(MushiProgramError::InvalidCollateralAmount)
    );
}

#[test]
fn mushi_removing_collateral_must_leave_the_debt_covered() {
    let mut ctx = loan_at_par();
    // 99_000 > 98_505, the hundredth part of what 99 times 99_500 tokens
    // sell for.
    assert_eq!(
        remove_collateral(&mut ctx, NOW, 500),
        Err(MushiProgramError::RemoveCollateralFailed)
    );
    assert_eq!(ctx.common.user_loan.collateral, 100_000);
    assert_eq!(remove_collateral(&mut ctx, NOW, 0), Ok(nothing()));
    assert_eq!(
        remove_collateral(&mut ctx, NOW, 100_001),
        Err(MushiProgramError::RemoveCollateralFailed)
    );
    assert_eq!(
        remove_collateral(&mut ctx, CURSOR + 9 * DAY + 1, 0),
        Err(MushiProgramError::LoanExpired)
    );
}

#[test]
fn removing_collateral_is_held_to_the_rounded_worth_of_the_rest() {
    let mut common = accounts();
    common.global_state.token_supply = 100;
    common.global_state.total_borrowed = 10;
    common.global_state.total_collateral = 11;
    common.global_state.last_price = 1_090_000_000;
    common.global_state.last_liquidation_date = CURSOR;
    common.quote_vault_amount = 99;
    common.token_vault_amount = 11;
    common.user_loan =
        UserLoan { collateral: 11, borrowed: 10, end_date: CURSOR, number_of_days: 1 };
    let mut ctx = ACommonExtSubLoan {
        common,
        daily_state_old_end_date: DailyStats { date: CURSOR, borrowed: 10, collateral: 11 },
    };
    // The remaining 10 tokens sell for 10 (10.9 rounded down), of which 99
    // hundredths are 9: less than the debt of 10.
    assert_eq!(remove_collateral(&mut ctx, NOW, 1), Err(MushiProgramError::RemoveCollateralFailed));
    assert_eq!(ctx.common.user_loan.collateral, 11);
    assert_eq!(ctx.common.global_state.total_collateral, 11);
    assert_eq!(ctx.daily_state_old_end_date.collateral, 11);
    assert_eq!(ctx.common.token_vault_amount, 11);
    assert_eq!(ctx.common.global_state.last_price, 1_090_000_000);
}

#[test]
fn collateral_in_excess_can_be_taken_out_of_the_vault() {
    let mut ctx = loan_at_par();
    ctx.common.user_loan.collateral = 200_000;
    ctx.daily_state_old_end_date.collateral = 200_000;
    ctx.common.global_state.total_collateral = 200_000;
    ctx.common.token_vault_amount = 200_000;
    let transfers = remove_collateral(&mut ctx, NOW, 100_000).unwrap();
    assert_eq!(transfers, Transfers { tokens_to_user: 100_000, ..nothing() });
    assert_eq!(ctx.common.user_loan.collateral, 100_000);
    assert_eq!(ctx.daily_state_old_end_date.collateral, 100_000);
    assert_eq!(ctx.common.global_state.total_collateral, 100_000);
    assert_eq!(ctx.common.token_vault_amount, 100_000);
    assert_eq!(
        remove_collateral(&mut ctx, NOW, 1),
        Err(MushiProgramError::RemoveCollateralFailed)
    );
    // Any number of tokens fits: nothing is multiplied before the sale.
    ctx.common.user_loan.collateral = u64::MAX;
    assert_eq!(remove_collateral(&mut ctx, NOW, 0), Ok(nothing()));
}

#[test]
fn repay_and_close_a_loan() {
    let mut ctx = loan_at_par();
    assert_eq!(repay(&mut ctx, NOW, 99_000), Err(MushiProgramError::InvalidSolAmount));
    assert_eq!(repay(&mut ctx, NOW, 0), Err(MushiProgramError::InvalidSolAmount));
    let transfers = repay(&mut ctx, NOW, 9_000).unwrap();
    assert_eq!(transfers, Transfers { quote_to_vault: 9_000, ..nothing() });
    assert_eq!(ctx.common.user_loan.borrowed, 90_000);
    assert_eq!(ctx.daily_state_old_end_date.borrowed, 90_000);
    assert_eq!(ctx.common.global_state.total_borrowed, 90_000);
    assert_eq!(ctx.common.quote_vault_amount, 910_000);
    assert_eq!(close_position(&mut ctx, NOW, 89_999), Err(MushiProgramError::InvalidLoanAmount));
    let transfers = close_position(&mut ctx, NOW, 90_000).unwrap();
    assert_eq!(
        transfers,
        Transfers { quote_to_vault: 90_000, tokens_to_user: 100_000, ..nothing() }
    );
    assert_eq!(ctx.common.user_loan, no_loan());
    assert_eq!((ctx.daily_state_old_end_date.borrowed, ctx.daily_state_old_end_date.collateral), (0, 0));
    assert_eq!(ctx.common.global_state.total_borrowed, 0);
    assert_eq!(ctx.common.global_state.total_collateral, 0);
    assert_eq!(ctx.common.token_vault_amount, 0);
    assert_eq!(ctx.common.quote_vault_amount, 1_000_000);
    assert_eq!(close_position(&mut ctx, NOW, 0), Err(MushiProgramError::LoanExpired));
}

#[test]
fn mushi_flash_close_settles_a_loan_out_of_its_collateral() {
    let mut ctx = with_loan();
    let transfers = flash_close_position(&mut ctx, NOW).unwrap();
    assert_eq!(
        transfers,
        Transfers {
            quote_to_user: 1_432,
            fee_from_vault: 3_000_004,
            burned_from_vault: 1_000_000_000,
            ..nothing()
        }
    );
    assert_eq!(ctx.common.user_loan, no_loan());
    assert_eq!(ctx.common.global_state.token_supply, 999_000_000_000);
    assert_eq!(ctx.common.global_state.total_borrowed, 0);
    assert_eq!(ctx.common.token_vault_amount, 0);
    let mut ctx = loan_at_par();
    assert_eq!(flash_close_position(&mut ctx, NOW), Err(MushiProgramError::InvalidFeeAmount));
    ctx.common.user_loan.borrowed = 99_001;
    assert_eq!(
        flash_close_position(&mut ctx, NOW),
        Err(MushiProgramError::InvalidCollateralAmount)
    );
}

#[test]
fn mushi_extend_loan_moves_the_loan_to_a_later_bucket() {
    let mut common = accounts();
    common.quote_vault_amount = 2_000_000_000_000;
    common.global_state.token_supply = 2_000_000_000_000;
    let mut opened = ACommonExtLoan { common, daily_state_end_date: empty_bucket() };
    borrow(&mut opened, NOW, 10, 1_000_000_000_000).unwrap();
    let mut ctx = ACommonExtExtendLoan {
        common: opened.common,
        daily_state_old_end_date: opened.daily_state_end_date,
        daily_state_new_end_date: empty_bucket(),
    };
    let vault = ctx.common.quote_vault_amount;
    let fee = get_interest_fee(990_000_000_000, 5);
    assert_eq!(fee, 1_518_903_540);
    assert_eq!(
        extend_loan(&mut ctx, NOW, 5, fee - 1),
        Err(MushiProgramError::InvalidFeeAmount)
    );
    assert_eq!(extend_loan(&mut ctx, NOW, 0, 990_000_000), Err(MushiProgramError::InvalidInput));
    assert_eq!(extend_loan(&mut ctx, NOW, 366, fee), Err(MushiProgramError::InvalidNumberOfDays));
    let transfers = extend_loan(&mut ctx, NOW, 5, fee).unwrap();
    assert_eq!(
        transfers,
        Transfers { quote_to_vault: fee, fee_from_vault: 455_671_062, ..nothing() }
    );
    assert_eq!(ctx.common.user_loan.end_date, 1_700_870_400 + 5 * DAY);
    assert_eq!(ctx.common.user_loan.number_of_days, 15);
    assert_eq!(ctx.daily_state_old_end_date.borrowed, 0);
    assert_eq!(ctx.daily_state_new_end_date.date, 1_700_870_400 + 5 * DAY);
    assert_eq!(ctx.daily_state_new_end_date.borrowed, 990_000_000_000);
    assert_eq!(ctx.common.global_state.total_borrowed, 990_000_000_000);
    assert_eq!(ctx.common.quote_vault_amount, vault + fee - 455_671_062);
}

#[test]
fn the_sweep_forfeits_what_has_run_out() {
    let open = with_loan();
    let mut ctx = open.common;
    ctx.global_state.last_liquidation_date = 1_700_870_400;
    ctx.last_liquidation_date_state = open.daily_state_old_end_date;
    // At the loan's last midnight nothing is due yet.
    assert_eq!(liquidate_expired_loans(&mut ctx, 1_700_870_400), Ok(nothing()));
    assert_eq!(ctx.global_state.total_borrowed, 990_000_000);
    let transfers = liquidate_expired_loans(&mut ctx, 1_700_870_401).unwrap();
    assert_eq!(transfers, Transfers { burned_from_vault: 1_000_000_000, ..nothing() });
    assert_eq!(ctx.global_state.last_liquidation_date, 1_700_870_400 + DAY);
    assert_eq!(ctx.global_state.total_borrowed, 0);
    assert_eq!(ctx.global_state.total_collateral, 0);
    assert_eq!(ctx.global_state.token_supply, 999_000_000_000);
    assert_eq!(ctx.token_vault_amount, 0);
    assert_eq!(ctx.last_liquidation_date_state.borrowed, 0);
    // A second call at the same time finds nothing to do.
    assert_eq!(liquidate_expired_loans(&mut ctx, 1_700_870_401), Ok(nothing()));
    assert_eq!(ctx.global_state.last_liquidation_date, 1_700_870_400 + DAY);
}

#[test]
fn the_sweep_step_checks_its_bucket() {
    let mut global = global_state();
    let mut bucket = DailyStats { date: CURSOR + DAY, borrowed: 1, collateral: 0 };
    let mut vault = 5u64;
    assert_eq!(
        liquidate(&mut bucket, &mut global, &mut vault, CURSOR + 1),
        Err(MushiProgramError::InvalidDailyStatsAccount)
    );
    let mut bucket = DailyStats { date: CURSOR, borrowed: 1, collateral: 6 };
    assert_eq!(
        liquidate(&mut bucket, &mut global, &mut vault, CURSOR + 1),
        Err(MushiProgramError::SafetyCheckCollateralFailed)
    );
    assert_eq!(liquidate(&mut bucket, &mut global, &mut vault, CURSOR), Ok(0));
    assert_eq!(global.last_liquidation_date, CURSOR);
}

#[test]
fn mushi_the_day_buckets_follow_the_totals() {
    let mut global = global_state();
    let mut bucket = empty_bucket();
    assert_eq!(add_loans_by_date(&mut global, &mut bucket, 10, 20), Ok(()));
    assert_eq!((global.total_borrowed, global.total_collateral), (10, 20));
    assert_eq!(
        sub_loans_by_date(&mut global, &mut bucket, 11, 0),
        Err(MushiProgramError::ArithmeticOverflow)
    );
    assert_eq!((bucket.borrowed, bucket.collateral), (10, 20));
    assert_eq!(sub_loans_by_date(&mut global, &mut bucket, 4, 20), Ok(()));
    assert_eq!((bucket.borrowed, bucket.collateral), (6, 0));
    assert_eq!((global.total_borrowed, global.total_collateral), (6, 0));
    assert_eq!(
        add_loans_by_date(&mut global, &mut bucket, u64::MAX, 0),
        Err(MushiProgramError::ArithmeticOverflow)
    );
}

#[test]
fn the_protocol_is_set_up_and_started() {
    let input = InitializeInput {
        fee_receiver: address(7),
        sell_fee: 975,
        buy_fee: 980,
        buy_fee_leverage: 10,
    };
    let (main, global) = init_main_state(address(2), address(3), input, NOW).unwrap();
    assert_eq!(main.admin.bytes, [2u8; 32]);
    assert_eq!(main.fee_receiver.bytes, [7u8; 32]);
    assert_eq!(main.quote_token.bytes, [3u8; 32]);
    assert_eq!((main.sell_fee, main.buy_fee, main.buy_fee_leverage), (975, 980, 10));
    assert!(!main.started && !main.stake_enabled);
    assert_eq!(global.last_liquidation_date, CURSOR);
    assert_eq!((global.total_borrowed, global.token_supply, global.last_price), (0, 0, 0));
    assert_eq!(
        init_main_state(address(2), address(3), input, i64::MAX).unwrap_err(),
        MushiProgramError::ArithmeticOverflow
    );
    let mut ctx = AStart {
        main_state: main,
        global_state: global,
        base_token: address(1),
        token_vault_amount: 0,
        quote_vault_amount: 0,
    };
    assert_eq!(start(&mut ctx, 999_999_999), Err(MushiProgramError::InvalidInput));
    assert_eq!(
        start(&mut ctx, 50_000_000_000_000_001),
        Err(MushiProgramError::MaxSupplyExceeded)
    );
    let transfers = start(&mut ctx, 5_000_000_000).unwrap();
    assert_eq!(
        transfers,
        Transfers {
            quote_to_vault: 5_000_000_000,
            minted_to_vault: 5_000_000_000,
            burned_from_vault: 1_000_000_000,
            ..nothing()
        }
    );
    assert!(ctx.main_state.started);
    assert_eq!(ctx.global_state.token_supply, 5_000_000_000);
    assert_eq!(ctx.global_state.base_token.bytes, [1u8; 32]);
    assert_eq!(ctx.token_vault_amount, 4_000_000_000);
    assert_eq!(ctx.quote_vault_amount, 5_000_000_000);
    assert_eq!(start(&mut ctx, 5_000_000_000), Err(MushiProgramError::AlreadyStarted));
}

#[test]
fn the_parameters_change_within_their_bounds() {
    let none = UpdateMainStateInput {
        admin: None,
        fee_receiver: None,
        sell_fee: None,
        buy_fee: None,
        buy_fee_leverage: None,
        quote_token: None,
        stake_token: None,
        stake_vault_program: None,
        stake_enabled: None,
        started: None,
    };
    let mut state = main_state();
    assert_eq!(update_main_state(&mut state, none), Ok(()));
    assert_eq!(state.buy_fee, 975);
    let change = UpdateMainStateInput {
        admin: Some(address(9)),
        buy_fee: Some(992),
        sell_fee: Some(980),
        buy_fee_leverage: Some(25),
        stake_enabled: Some(true),
        started: Some(false),
        ..none
    };
    assert_eq!(update_main_state(&mut state, change), Ok(()));
    assert_eq!(state.admin.bytes, [9u8; 32]);
    assert_eq!((state.buy_fee, state.sell_fee, state.buy_fee_leverage), (992, 980, 25));
    assert!(state.stake_enabled && !state.started);
    assert_eq!(state.fee_receiver.bytes, [7u8; 32]);
    let bad = UpdateMainStateInput { admin: Some(address(1)), buy_fee: Some(993), ..none };
    assert_eq!(update_main_state(&mut state, bad), Err(MushiProgramError::InvalidBuyFee));
    assert_eq!(state.admin.bytes, [9u8; 32]);
    let bad = UpdateMainStateInput { sell_fee: Some(974), ..none };
    assert_eq!(update_main_state(&mut state, bad), Err(MushiProgramError::InvalidSellFee));
    let bad = UpdateMainStateInput { buy_fee_leverage: Some(26), ..none };
    assert_eq!(update_main_state(&mut state, bad), Err(MushiProgramError::InvalidBuyFeeLeverage));
    assert_eq!((state.buy_fee, state.sell_fee, state.buy_fee_leverage), (992, 980, 25));
}

#[test]
fn unstaking_lowers_what_is_staked() {
    let mut global = global_state();
    global.total_eclipse_token_staked = 10;
    assert_eq!(unstake(&mut global, 4), Ok(()));
    assert_eq!(global.total_eclipse_token_staked, 6);
    assert_eq!(unstake(&mut global, 7), Err(MushiProgramError::ArithmeticOverflow));
    assert_eq!(global.total_eclipse_token_staked, 6);
}

#[test]
fn mushi_errors_carry_their_text() {
    assert_eq!(MushiProgramError::LoanExpired.message(), "loan expired");
    assert_eq!(
        MushiProgramError::SafetyCheckPriceFailed.message(),
        "The price of mushi cannot decrease"
    );
}

/// The accounts a day behind: the cursor stands on the midnight before
/// `NOW`, and the bucket of that day holds a loan that has run out.
fn a_day_behind(mut common: ACommon) -> ACommon {
    common.global_state.last_liquidation_date = CURSOR - DAY;
    common.global_state.total_borrowed += 5_000;
    common.global_state.total_collateral += 6_000;
    common.token_vault_amount += 6_000;
    common.last_liquidation_date_state =
        DailyStats { date: CURSOR - DAY, borrowed: 5_000, collateral: 6_000 };
    common
}

/// The same accounts after the sweep has handled the day that was due.
fn caught_up(mut common: ACommon) -> ACommon {
    let burned = liquidate(
        &mut common.last_liquidation_date_state,
        &mut common.global_state,
        &mut common.token_vault_amount,
        NOW,
    );
    assert_eq!(burned, Ok(6_000));
    common
}

#[test]
fn mushi_a_step_of_the_sweep_takes_the_bucket_out_of_the_totals() {
    let behind = a_day_behind(with_loan().common);
    let swept = caught_up(behind);
    assert_eq!(swept.global_state.total_borrowed, behind.global_state.total_borrowed - 5_000);
    assert_eq!(
        swept.global_state.total_collateral,
        behind.global_state.total_collateral - 6_000
    );
    assert_eq!(swept.global_state.token_supply, behind.global_state.token_supply - 6_000);
    assert_eq!(swept.token_vault_amount, behind.token_vault_amount - 6_000);
    assert_eq!(swept.global_state.last_liquidation_date, CURSOR);
    assert_eq!(swept.global_state.last_price, behind.global_state.last_price);
    assert_eq!(
        swept.last_liquidation_date_state,
        DailyStats { date: CURSOR - DAY, borrowed: 0, collateral: 0 }
    );

    // A bucket without collateral asks for no burn.
    let mut common = a_day_behind(with_loan().common);
    common.last_liquidation_date_state.collateral = 0;
    let burned = liquidate(
        &mut common.last_liquidation_date_state,
        &mut common.global_state,
        &mut common.token_vault_amount,
        NOW,
    );
    assert_eq!(burned, Ok(0));
    assert_eq!(common.global_state.total_borrowed, behind.global_state.total_borrowed - 5_000);
    assert_eq!(common.global_state.total_collateral, behind.global_state.total_collateral);
    assert_eq!(common.token_vault_amount, behind.token_vault_amount);
    assert_eq!(common.global_state.last_liquidation_date, CURSOR);
}

#[test]
fn mushi_leverage_reckons_from_what_the_sweep_leaves() {
    let behind = a_day_behind(accounts());
    let mut ctx = ACommonExtLoan { common: behind, daily_state_end_date: empty_bucket() };
    let transfers = leverage(&mut ctx, NOW, 30, 10_000_000_000).unwrap();
    let loan = ctx.common.user_loan;
    assert_eq!(transfers.burned_from_vault, 6_000);
    assert_eq!(transfers.minted_to_vault, loan.collateral);
    assert_eq!(loan.borrowed, 9_759_365_757);
    assert_eq!(ctx.common.global_state.last_liquidation_date, CURSOR);
    assert_eq!(
        ctx.common.last_liquidation_date_state,
        DailyStats { date: CURSOR - DAY, borrowed: 0, collateral: 0 }
    );
    assert_eq!(
        ctx.common.global_state.token_supply,
        1_000_000_000_000 - 6_000 + loan.collateral
    );
    assert_eq!(ctx.common.global_state.total_collateral, loan.collateral);
    assert_eq!(ctx.common.global_state.total_borrowed, loan.borrowed);
    assert_eq!(ctx.common.token_vault_amount, loan.collateral);
    let backing =
        ctx.common.global_state.total_borrowed as u128 + ctx.common.quote_vault_amount as u128;
    assert_eq!(
        ctx.common.global_state.last_price as u128,
        backing * 1_000_000_000 / ctx.common.global_state.token_supply as u128
    );
    assert!(ctx.common.global_state.last_price >= behind.global_state.last_price);

    // The sweep on its own, and the call after it, come to the same.
    let mut apart =
        ACommonExtLoan { common: caught_up(behind), daily_state_end_date: empty_bucket() };
    let second = leverage(&mut apart, NOW, 30, 10_000_000_000).unwrap();
    assert_eq!(second, Transfers { burned_from_vault: 0, ..transfers });
    assert_eq!(apart.common.user_loan, loan);
    assert_eq!(apart.common.global_state.token_supply, ctx.common.global_state.token_supply);
    assert_eq!(apart.common.global_state.last_price, ctx.common.global_state.last_price);
    assert_eq!(
        apart.common.global_state.total_collateral,
        ctx.common.global_state.total_collateral
    );
    assert_eq!(apart.common.quote_vault_amount, ctx.common.quote_vault_amount);
}

#[test]
fn mushi_borrow_more_enters_the_same_amounts_in_loan_bucket_and_totals() {
    let open = with_loan();
    let behind = a_day_behind(open.common);
    let swept = caught_up(behind);
    let mut ctx = ACommonExtSubLoan { common: behind, ..open };
    let transfers = borrow_more(&mut ctx, NOW, 500_000_000).unwrap();
    let loan = ctx.common.user_loan;
    assert_eq!(transfers.burned_from_vault, 6_000);
    assert!(transfers.tokens_to_vault > 0);
    // The debt grows by 99 hundredths of the amount, everywhere.
    assert_eq!(loan.borrowed - open.common.user_loan.borrowed, 495_000_000);
    assert_eq!(
        ctx.daily_state_old_end_date.borrowed - open.daily_state_old_end_date.borrowed,
        495_000_000
    );
    assert_eq!(
        ctx.common.global_state.total_borrowed - swept.global_state.total_borrowed,
        495_000_000
    );
    // The collateral grows by the tokens that went into the vault, everywhere.
    assert_eq!(loan.collateral - open.common.user_loan.collateral, transfers.tokens_to_vault);
    assert_eq!(
        ctx.daily_state_old_end_date.collateral - open.daily_state_old_end_date.collateral,
        transfers.tokens_to_vault
    );
    assert_eq!(
        ctx.common.global_state.total_collateral - swept.global_state.total_collateral,
        transfers.tokens_to_vault
    );
    assert_eq!(ctx.common.token_vault_amount - swept.token_vault_amount, transfers.tokens_to_vault);
    assert_eq!(ctx.common.global_state.total_borrowed, loan.borrowed);
    assert_eq!(ctx.common.global_state.total_collateral, loan.collateral);

    let mut apart = ACommonExtSubLoan { common: swept, ..open };
    let second = borrow_more(&mut apart, NOW, 500_000_000).unwrap();
    assert_eq!(second, Transfers { burned_from_vault: 0, ..transfers });
    assert_eq!(apart.common.user_loan, loan);
    assert_eq!(apart.common.global_state.token_supply, ctx.common.global_state.token_supply);
    assert_eq!(apart.common.global_state.last_price, ctx.common.global_state.last_price);
    assert_eq!(
        apart.common.global_state.total_collateral,
        ctx.common.global_state.total_collateral
    );
}

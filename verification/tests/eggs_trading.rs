use bonding_core::address::Address;
use bonding_core::eggs::utils::{
    eggs_to_sol_with_account, get_backing, get_interest_fee, liquidate,
    safety_check_with_account, sol_to_eggs_lev_with_account,
    sol_to_eggs_no_trade_ceil_with_account, sol_to_eggs_no_trade_with_account,
    sol_to_eggs_with_account,
};
use bonding_core::eggs::{
    buy, sell, DailyLoanData, EggsError, EggsState, Settlement, Trade, TradingError,
};

const NOW: i64 = 1_700_000_000;
const CURSOR: i64 = 1_700_006_400;

fn address(byte: u8) -> Address {
    Address { bytes: [byte; 32] }
}

fn state() -> EggsState {
    EggsState {
        fee_address: address(7),
        sell_fee: 975,
        buy_fee: 975,
        buy_fee_leverage: 10,
        start: true,
        total_borrowed: 0,
        total_collateral: 0,
        total_minted: 1_000_000_000_000,
        last_price: 1_000_000_000,
        last_liquidation_date: CURSOR,
        mint: address(1),
        authority: address(2),
        bump: 255,
    }
}

fn empty_bucket() -> DailyLoanData {
    DailyLoanData { date: 0, borrowed: 0, collateral: 0 }
}

fn trade() -> Trade {
    Trade {
        state: state(),
        state_account_lamports: 1_000_000_000_000,
        escrow_token_amount: 0,
        liquidation_data: empty_bucket(),
        receiver: address(9),
    }
}

fn nothing() -> Settlement {
    Settlement {
        paid_in: 0,
        paid_out: 0,
        fee_paid: 0,
        minted: 0,
        minted_to_escrow: 0,
        burned: 0,
        escrowed: 0,
        released: 0,
        forfeited: 0,
    }
}

#[test]
fn buy_mints_the_quote_less_the_fee() {
    let mut ctx = trade();
    let settlement = buy(&mut ctx, NOW, 1_000_000_000).unwrap();
    assert_eq!(
        settlement,
        Settlement { paid_in: 1_000_000_000, fee_paid: 8_000_000, minted: 975_000_000, ..nothing() }
    );
    assert_eq!(ctx.state.total_minted, 1_000_975_000_000);
    assert_eq!(ctx.state_account_lamports, 1_000_992_000_000);
    assert_eq!(ctx.state.last_price, 1_000_016_983);
    assert_eq!(ctx.state.last_liquidation_date, CURSOR);
}

#[test]
fn sell_pays_the_quote_less_the_fee() {
    let mut ctx = trade();
    buy(&mut ctx, NOW, 1_000_000_000).unwrap();
    let settlement = sell(&mut ctx, NOW, 975_000_000).unwrap();
    assert_eq!(
        settlement,
        Settlement {
            paid_out: 950_641_144,
            fee_paid: 7_800_132,
            burned: 975_000_000,
            ..nothing()
        }
    );
    assert_eq!(ctx.state.total_minted, 1_000_000_000_000);
    assert_eq!(ctx.state_account_lamports, 1_000_033_558_724);
    assert_eq!(ctx.state.last_price, 1_000_033_558);
}

#[test]
fn a_round_trip_returns_less_than_the_deposit() {
    let mut ctx = trade();
    let bought = buy(&mut ctx, NOW, 1_000_000_000).unwrap();
    let sold = sell(&mut ctx, NOW, bought.minted).unwrap();
    assert!(sold.paid_out <= 1_000_000_000);
    assert!(sold.paid_out + sold.fee_paid <= 1_000_000_000);
}

#[test]
fn the_recorded_price_never_falls() {
    let mut ctx = trade();
    let mut last = ctx.state.last_price;
    for amount in [1_000_000_000u64, 300_000_000, 125_125_000] {
        let bought = buy(&mut ctx, NOW, amount).unwrap();
        assert!(ctx.state.last_price >= last);
        last = ctx.state.last_price;
        sell(&mut ctx, NOW, bought.minted).unwrap();
        assert!(ctx.state.last_price >= last);
        last = ctx.state.last_price;
    }
}

#[test]
fn buy_is_refused_before_trading_starts() {
    let mut ctx = trade();
    ctx.state.start = false;
    let before = ctx;
    assert_eq!(buy(&mut ctx, NOW, 1_000_000_000), Err(EggsError::TradingNotInitialized));
    assert_eq!(ctx.state.total_minted, before.state.total_minted);
    assert_eq!(ctx.state_account_lamports, before.state_account_lamports);
}

#[test]
fn buy_is_refused_for_an_unset_receiver() {
    let mut ctx = trade();
    ctx.receiver = address(0);
    assert_eq!(buy(&mut ctx, NOW, 1_000_000_000), Err(EggsError::InvalidParameter));
}

#[test]
fn buy_is_refused_for_a_fee_at_the_minimum() {
    let mut ctx = trade();
    // 125_000 / 125 = 1000, which does not exceed the minimum.
    assert_eq!(buy(&mut ctx, NOW, 125_000), Err(EggsError::BelowMinimumValue));
    // 125_125 / 125 = 1001.
    assert!(buy(&mut ctx, NOW, 125_125).is_ok());
}

#[test]
fn buy_is_refused_without_supply_or_backing() {
    let mut ctx = trade();
    ctx.state.total_minted = 0;
    assert_eq!(buy(&mut ctx, NOW, 1_000_000_000), Err(EggsError::InvalidParameter));
    let mut ctx = trade();
    ctx.state_account_lamports = 0;
    assert_eq!(buy(&mut ctx, NOW, 1_000_000_000), Err(EggsError::InvalidParameter));
}

#[test]
fn buy_is_refused_where_the_supply_leaves_64_bits() {
    let mut ctx = trade();
    ctx.state.total_minted = u64::MAX - 10;
    ctx.state.last_price = 0;
    assert_eq!(buy(&mut ctx, NOW, 1_000_000_000), Err(EggsError::MaxSupplyExceeded));
}

#[test]
fn buy_is_refused_where_the_price_would_fall() {
    let mut ctx = trade();
    ctx.state.last_price = 1_000_016_984;
    let before = ctx;
    assert_eq!(buy(&mut ctx, NOW, 1_000_000_000), Err(EggsError::PriceDecrease));
    assert_eq!(ctx.state.last_price, before.state.last_price);
    assert_eq!(ctx.state.total_minted, before.state.total_minted);
    assert_eq!(ctx.state_account_lamports, before.state_account_lamports);
}

#[test]
fn buy_is_refused_where_the_escrow_is_short() {
    let mut ctx = trade();
    ctx.state.total_collateral = 5;
    ctx.escrow_token_amount = 4;
    assert_eq!(buy(&mut ctx, NOW, 1_000_000_000), Err(EggsError::ContractBalanceInsufficient));
}

#[test]
fn sell_is_refused_where_more_is_sold_than_exists() {
    let mut ctx = trade();
    assert_eq!(sell(&mut ctx, NOW, 1_000_000_000_001), Err(EggsError::InsufficientFunds));
}

#[test]
fn sell_is_refused_for_a_fee_at_the_minimum() {
    let mut ctx = trade();
    assert_eq!(sell(&mut ctx, NOW, 125_000), Err(EggsError::BelowMinimumValue));
}

#[test]
fn sell_is_refused_where_every_token_is_sold() {
    let mut ctx = trade();
    assert_eq!(sell(&mut ctx, NOW, 1_000_000_000_000), Err(EggsError::InvalidParameter));
}

#[test]
fn trading_sweeps_the_day_the_cursor_stands_on() {
    let mut ctx = trade();
    ctx.state.last_liquidation_date = NOW - NOW % 86400;
    ctx.state.total_borrowed = 990_000_000;
    ctx.state.total_collateral = 1_000_000_000;
    ctx.state_account_lamports = 999_010_000_000;
    ctx.escrow_token_amount = 1_000_000_000;
    ctx.liquidation_data = DailyLoanData {
        date: NOW - NOW % 86400,
        borrowed: 990_000_000,
        collateral: 1_000_000_000,
    };
    let settlement = buy(&mut ctx, NOW, 1_000_000_000).unwrap();
    assert_eq!(settlement.forfeited, 1_000_000_000);
    assert_eq!(ctx.state.total_borrowed, 0);
    assert_eq!(ctx.state.total_collateral, 0);
    assert_eq!(ctx.escrow_token_amount, 0);
    assert_eq!(ctx.liquidation_data.borrowed, 0);
    assert_eq!(ctx.liquidation_data.collateral, 0);
    assert_eq!(ctx.state.last_liquidation_date, NOW - NOW % 86400 + 86400);
    // 999_000_000_000 tokens were left before the purchase.
    assert_eq!(settlement.minted, 974_990_240);
}

#[test]
fn liquidate_is_idle_until_the_cursor_lies_in_the_past() {
    let mut state = state();
    let mut bucket = DailyLoanData { date: CURSOR, borrowed: 5, collateral: 6 };
    let mut escrow = 10u64;
    assert_eq!(liquidate(&mut state, &mut bucket, &mut escrow, CURSOR), Ok(0));
    assert_eq!(state.last_liquidation_date, CURSOR);
    assert_eq!((bucket.borrowed, bucket.collateral, escrow), (5, 6, 10));
}

#[test]
fn liquidate_burns_the_forfeited_collateral() {
    let mut state = state();
    state.total_borrowed = 50;
    state.total_collateral = 60;
    let mut bucket = DailyLoanData { date: CURSOR, borrowed: 5, collateral: 6 };
    let mut escrow = 10u64;
    assert_eq!(liquidate(&mut state, &mut bucket, &mut escrow, CURSOR + 1), Ok(6));
    assert_eq!(state.last_liquidation_date, CURSOR + 86400);
    assert_eq!((state.total_borrowed, state.total_collateral), (45, 54));
    assert_eq!(state.total_minted, 1_000_000_000_000 - 6);
    assert_eq!((bucket.borrowed, bucket.collateral, escrow), (0, 0, 4));
}

#[test]
fn liquidate_refuses_the_bucket_of_another_day() {
    let mut state = state();
    let mut bucket = DailyLoanData { date: CURSOR + 86400, borrowed: 5, collateral: 6 };
    let mut escrow = 10u64;
    assert_eq!(
        liquidate(&mut state, &mut bucket, &mut escrow, CURSOR + 1),
        Err(EggsError::InvalidParameter)
    );
    assert_eq!(state.last_liquidation_date, CURSOR);
    let mut bucket = DailyLoanData { date: CURSOR, borrowed: 5, collateral: 11 };
    assert_eq!(
        liquidate(&mut state, &mut bucket, &mut escrow, CURSOR + 1),
        Err(EggsError::ContractBalanceInsufficient)
    );
}

#[test]
fn conversions_follow_the_backing() {
    let mut s = state();
    s.total_borrowed = 500;
    s.total_minted = 3000;
    assert_eq!(get_backing(&s, 500), Ok(1000));
    assert_eq!(get_backing(&s, u64::MAX), Err(EggsError::ArithmeticOverflow));
    assert_eq!(eggs_to_sol_with_account(&s, 500, 10), Ok(3));
    assert_eq!(sol_to_eggs_with_account(&s, 500, 100), Ok(333));
    assert_eq!(sol_to_eggs_no_trade_with_account(&s, 500, 7), Ok(21));
    assert_eq!(sol_to_eggs_no_trade_ceil_with_account(&s, 501, 7), Ok(21));
    assert_eq!(sol_to_eggs_no_trade_with_account(&s, 501, 7), Ok(20));
    assert_eq!(sol_to_eggs_lev_with_account(&s, 500, 7, 100), Ok(24));
    assert_eq!(sol_to_eggs_lev_with_account(&s, 500, 7, 1000), Err(EggsError::InvalidParameter));
    assert_eq!(
        sol_to_eggs_lev_with_account(&s, 500, 7, 1001),
        Err(EggsError::ArithmeticOverflow)
    );
    s.total_minted = 0;
    assert_eq!(eggs_to_sol_with_account(&s, 500, 10), Err(EggsError::InvalidParameter));
    s.total_borrowed = 0;
    assert_eq!(sol_to_eggs_no_trade_with_account(&s, 0, 7), Err(EggsError::InvalidParameter));
    assert_eq!(sol_to_eggs_no_trade_ceil_with_account(&s, 0, 7), Err(EggsError::InvalidParameter));
    assert_eq!(sol_to_eggs_with_account(&s, 7, 7), Err(EggsError::InvalidParameter));
}

#[test]
fn interest_is_prorated_over_the_year() {
    assert_eq!(get_interest_fee(1_000_000_000, 10), Ok(2_068_493));
    assert_eq!(get_interest_fee(1_000_000_000, 0), Ok(1_000_000));
    assert_eq!(get_interest_fee(1_000_000_000, 365), Ok(40_000_000));
    assert_eq!(get_interest_fee(1_000_000_000, 1), Ok(1_106_849));
    assert_eq!(get_interest_fee(u64::MAX, 365), Ok(737_869_762_948_382_064));
    assert_eq!(get_interest_fee(1_000_000_000, 366), Err(EggsError::LoanTooLong));
}

#[test]
fn the_safety_check_records_the_price() {
    let mut s = state();
    s.last_price = 0;
    assert_eq!(safety_check_with_account(&mut s, 2_000_000_000_000, 0), Ok(()));
    assert_eq!(s.last_price, 2_000_000_000);
    assert_eq!(
        safety_check_with_account(&mut s, 1_999_999_999_999, 0),
        Err(EggsError::PriceDecrease)
    );
    assert_eq!(s.last_price, 2_000_000_000);
    s.total_collateral = 1;
    assert_eq!(
        safety_check_with_account(&mut s, 2_000_000_000_000, 0),
        Err(EggsError::ContractBalanceInsufficient)
    );
    s.total_minted = 0;
    assert_eq!(
        safety_check_with_account(&mut s, 2_000_000_000_000, 5),
        Err(EggsError::InvalidParameter)
    );
}

#[test]
fn errors_carry_their_text() {
    assert_eq!(EggsError::PriceDecrease.message(), "Price cannot decrease");
    assert_eq!(EggsError::LoanTooLong.message(), "Loan too long");
    assert_eq!(TradingError::MaxSupplyExceeded.message(), "Max supply exceeded");
    assert_eq!(TradingError::PriceDecrease.widen(), EggsError::PriceDecrease);
}

#[test]
fn a_settlement_accounts_for_every_balance() {
    let mut ctx = trade();
    let before = ctx;
    let s = buy(&mut ctx, NOW, 1_000_000_000).unwrap();
    assert_eq!(
        ctx.state_account_lamports,
        before.state_account_lamports + s.paid_in - s.paid_out - s.fee_paid
    );
    assert_eq!(ctx.state.total_minted, before.state.total_minted + s.minted - s.burned);
    let before = ctx;
    let s = sell(&mut ctx, NOW, 500_000_000).unwrap();
    assert_eq!(
        ctx.state_account_lamports,
        before.state_account_lamports + s.paid_in - s.paid_out - s.fee_paid
    );
    assert_eq!(ctx.state.total_minted, before.state.total_minted + s.minted - s.burned);
}

#[test]
fn a_conversion_beyond_64_bits_keeps_its_low_bits() {
    let mut s = state();
    s.total_minted = u64::MAX;
    // u64::MAX * u64::MAX / 1 leaves 1 in the low 64 bits.
    assert_eq!(sol_to_eggs_no_trade_with_account(&s, 1, u64::MAX), Ok(1));
    assert_eq!(sol_to_eggs_no_trade_ceil_with_account(&s, 1, u64::MAX), Ok(1));
    s.total_minted = 1;
    assert_eq!(eggs_to_sol_with_account(&s, u64::MAX, u64::MAX), Ok(1));
}

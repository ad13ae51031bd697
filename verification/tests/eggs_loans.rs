use bonding_core::address::Address;
use bonding_core::eggs::utils::{
    add_loans_by_date, close_loan, is_loan_expired, liquidate, process_collateral_adjustment,
    process_loan_creation, process_loan_repayment, sub_loans_by_date,
};
use bonding_core::eggs::{
    borrow, borrow_more, close_position, extend_loan, flash_close_position, leverage,
    liquidate_loans, remove_collateral, repay, DailyLoanData, EggsError, EggsState,
    LiquidateLoans, Loan, LoanOperation, Settlement,
};

const NOW: i64 = 1_700_000_000;
const CURSOR: i64 = 1_700_006_400;
const DAY: i64 = 86_400;

fn address(byte: u8) -> Address {
    Address { bytes: [byte; 32] }
}

fn state() -> EggsState {
    EggsState {
        fee_address: address(7),
        sell_fee: 975,
        buy_fee: 975,
        buy_fee_leverage: 10,
        start: true,
        total_borrowed: 0,
        total_collateral: 0,
        total_minted: 1_000_000_000_000,
        last_price: 1_000_000_000,
        last_liquidation_date: CURSOR,
        mint: address(1),
        authority: address(2),
        bump: 255,
    }
}

fn empty_bucket() -> DailyLoanData {
    DailyLoanData { date: 0, borrowed: 0, collateral: 0 }
}

fn no_loan() -> Loan {
    Loan { user: address(0), collateral: 0, borrowed: 0, end_date: 0, number_of_days: 0 }
}

fn accounts() -> LoanOperation {
    LoanOperation {
        authority: address(5),
        authority_lamports: 50_000_000_000,
        authority_token_amount: 50_000_000_000,
        state: state(),
        state_account_lamports: 1_000_000_000_000,
        escrow_token_amount: 0,
        loan: no_loan(),
        daily_loan_data: empty_bucket(),
        liquidation_data: empty_bucket(),
    }
}

fn nothing() -> Settlement {
    Settlement {
        paid_in: 0,
        paid_out: 0,
        fee_paid: 0,
        minted: 0,
        minted_to_escrow: 0,
        burned: 0,
        escrowed: 0,
        released: 0,
        forfeited: 0,
    }
}

/// The accounts after a loan of 990_000_000 lamports for ten days.
fn with_loan() -> LoanOperation {
    let mut ctx = accounts();
    borrow(&mut ctx, NOW, 1_000_000_000, 10).unwrap();
    ctx
}

/// A loan of 99_000 lamports against 100_000 tokens at a price of one.
fn loan_at_par() -> LoanOperation {
    let mut ctx = accounts();
    ctx.state.total_minted = 1_000_000;
    ctx.state.total_borrowed = 99_000;
    ctx.state.total_collateral = 100_000;
    ctx.state_account_lamports = 901_000;
    ctx.escrow_token_amount = 100_000;
    ctx.loan = Loan {
        user: address(5),
        collateral: 100_000,
        borrowed: 99_000,
        end_date: CURSOR + 9 * DAY,
        number_of_days: 10,
    };
    ctx.daily_loan_data =
        DailyLoanData { date: CURSOR + 9 * DAY, borrowed: 99_000, collateral: 100_000 };
    ctx
}

#[test]
fn borrow_opens_a_loan_against_the_callers_tokens() {
    let mut ctx = accounts();
    let settlement = borrow(&mut ctx, NOW, 1_000_000_000, 10).unwrap();
    assert_eq!(
        settlement,
        Settlement {
            paid_out: 987_931_507,
            fee_paid: 620_547,
            escrowed: 1_000_000_000,
            ..nothing()
        }
    );
    assert_eq!(ctx.loan.collateral, 1_000_000_000);
    assert_eq!(ctx.loan.borrowed, 990_000_000);
    assert_eq!(ctx.loan.end_date, 1_700_870_400);
    assert_eq!(ctx.loan.number_of_days, 10);
    assert_eq!(ctx.loan.user.bytes, [5u8; 32]);
    assert_eq!(ctx.daily_loan_data.date, 1_700_870_400);
    assert_eq!(ctx.daily_loan_data.borrowed, 990_000_000);
    assert_eq!(ctx.daily_loan_data.collateral, 1_000_000_000);
    assert_eq!(ctx.state.total_borrowed, 990_000_000);
    assert_eq!(ctx.state.total_collateral, 1_000_000_000);
    assert_eq!(ctx.state_account_lamports, 999_011_447_946);
    assert_eq!(ctx.escrow_token_amount, 1_000_000_000);
    assert_eq!(ctx.state.last_price, 1_000_001_447);
}

#[test]
fn after_borrow_the_collateral_covers_the_debt() {
    let ctx = with_loan();
    let backing = ctx.state.total_borrowed as u128 + ctx.state_account_lamports as u128;
    let worth = ctx.loan.collateral as u128 * backing / ctx.state.total_minted as u128;
    assert!(ctx.loan.borrowed as u128 <= worth * 99 / 100);
}

#[test]
fn borrow_is_refused_for_a_year_and_a_day() {
    let mut ctx = accounts();
    assert_eq!(borrow(&mut ctx, NOW, 1_000_000_000, 366), Err(EggsError::LoanTooLong));
    assert!(borrow(&mut ctx, NOW, 1_000_000_000, 365).is_ok());
}

#[test]
fn borrow_is_refused_for_nothing() {
    let mut ctx = accounts();
    assert_eq!(borrow(&mut ctx, NOW, 0, 10), Err(EggsError::InvalidParameter));
}

#[test]
fn borrow_is_refused_while_a_loan_runs() {
    let mut ctx = with_loan();
    ctx.daily_loan_data = empty_bucket();
    assert_eq!(borrow(&mut ctx, NOW, 1_000_000_000, 20), Err(EggsError::UserHasActiveLoan));
}

#[test]
fn borrow_replaces_a_loan_that_has_run_out() {
    let mut ctx = with_loan();
    let later = ctx.loan.end_date + 1;
    ctx.state.last_liquidation_date = later - 1 + DAY;
    ctx.daily_loan_data = empty_bucket();
    let settlement = borrow(&mut ctx, later, 2_000_000_000, 3).unwrap();
    assert_eq!(ctx.loan.borrowed, 1_980_000_000);
    assert_eq!(ctx.loan.collateral, settlement.escrowed);
    assert_eq!(ctx.loan.end_date, 1_700_870_400 + 4 * DAY);
    assert_eq!(ctx.state.total_borrowed, 990_000_000 + 1_980_000_000);
}

#[test]
fn borrow_is_refused_where_the_caller_lacks_the_tokens() {
    let mut ctx = accounts();
    ctx.authority_token_amount = 999_999_999;
    assert_eq!(borrow(&mut ctx, NOW, 1_000_000_000, 10), Err(EggsError::InsufficientCollateral));
}

#[test]
fn borrow_is_refused_for_a_cut_at_the_minimum() {
    let mut ctx = accounts();
    // The interest on 1_611_000 lamports for ten days is 3_332, its cut 999.
    assert_eq!(borrow(&mut ctx, NOW, 1_611_000, 10), Err(EggsError::BelowMinimumValue));
}

#[test]
fn borrow_is_refused_for_the_bucket_of_another_day() {
    let mut ctx = accounts();
    ctx.daily_loan_data = DailyLoanData { date: CURSOR, borrowed: 1, collateral: 1 };
    let before = ctx;
    assert_eq!(borrow(&mut ctx, NOW, 1_000_000_000, 10), Err(EggsError::InvalidParameter));
    assert_eq!(ctx.state.total_borrowed, before.state.total_borrowed);
    assert_eq!(ctx.loan.borrowed, 0);
    assert_eq!(ctx.escrow_token_amount, 0);
}

#[test]
fn borrow_is_refused_where_the_state_account_cannot_pay() {
    let mut ctx = accounts();
    ctx.state.total_borrowed = 999_999_000_000;
    ctx.state_account_lamports = 1_000_000;
    assert_eq!(borrow(&mut ctx, NOW, 1_000_000_000, 10), Err(EggsError::InsufficientFunds));
}

#[test]
fn leverage_mints_the_collateral_into_escrow() {
    let mut ctx = accounts();
    let settlement = leverage(&mut ctx, NOW, 10_000_000_000, 30).unwrap();
    assert_eq!(
        settlement,
        Settlement {
            paid_in: 240_634_246,
            fee_paid: 42_616_438,
            minted_to_escrow: 9_856_965_046,
            ..nothing()
        }
    );
    assert_eq!(ctx.loan.borrowed, 9_759_365_753);
    assert_eq!(ctx.loan.collateral, 9_856_965_046);
    assert_eq!(ctx.loan.end_date, 1_702_598_400);
    assert_eq!(ctx.loan.number_of_days, 30);
    assert_eq!(ctx.state.total_minted, 1_009_856_965_046);
    assert_eq!(ctx.state.total_borrowed, 9_759_365_753);
    assert_eq!(ctx.state.total_collateral, 9_856_965_046);
    assert_eq!(ctx.escrow_token_amount, 9_856_965_046);
    assert_eq!(ctx.state_account_lamports, 1_000_198_017_808);
    assert_eq!(ctx.state.last_price, 1_000_099_438);
}

#[test]
fn leverage_is_refused_before_trading_starts() {
    let mut ctx = accounts();
    ctx.state.start = false;
    assert_eq!(
        leverage(&mut ctx, NOW, 10_000_000_000, 30),
        Err(EggsError::TradingNotInitialized)
    );
}

#[test]
fn leverage_is_refused_where_the_caller_cannot_pay() {
    let mut ctx = accounts();
    ctx.authority_lamports = 240_634_245;
    assert_eq!(leverage(&mut ctx, NOW, 10_000_000_000, 30), Err(EggsError::InsufficientFunds));
    ctx.authority_lamports = 240_634_246;
    assert!(leverage(&mut ctx, NOW, 10_000_000_000, 30).is_ok());
}

#[test]
fn leverage_is_refused_for_too_long_a_term_or_a_running_loan() {
    let mut ctx = accounts();
    assert_eq!(leverage(&mut ctx, NOW, 10_000_000_000, 366), Err(EggsError::LoanTooLong));
    let mut ctx = with_loan();
    assert_eq!(leverage(&mut ctx, NOW, 10_000_000_000, 30), Err(EggsError::UserHasActiveLoan));
}

#[test]
fn borrow_more_asks_only_for_the_collateral_that_is_short() {
    let mut ctx = with_loan();
    let settlement = borrow_more(&mut ctx, NOW, 500_000_000).unwrap();
    assert_eq!(
        settlement,
        Settlement {
            paid_out: 495_000_000 - 1_034_246,
            fee_paid: 310_273,
            escrowed: 499_997_843,
            ..nothing()
        }
    );
    assert_eq!(ctx.loan.borrowed, 1_485_000_000);
    assert_eq!(ctx.loan.collateral, 1_499_997_843);
    assert_eq!(ctx.loan.end_date, 1_700_870_400);
    assert_eq!(ctx.daily_loan_data.borrowed, 1_485_000_000);
    assert_eq!(ctx.daily_loan_data.collateral, 1_499_997_843);
    assert_eq!(ctx.state.total_borrowed, 1_485_000_000);
    assert_eq!(ctx.state.total_collateral, 1_499_997_843);
    assert_eq!(ctx.state_account_lamports, 998_517_171_919);
    assert_eq!(ctx.state.last_price, 1_000_002_171);
}

#[test]
fn borrow_more_is_refused_on_a_loan_that_has_run_out() {
    let mut ctx = with_loan();
    let later = ctx.loan.end_date + 1;
    assert_eq!(borrow_more(&mut ctx, later, 500_000_000), Err(EggsError::LoanExpired));
    let mut ctx = accounts();
    assert_eq!(borrow_more(&mut ctx, NOW, 500_000_000), Err(EggsError::LoanExpired));
    let mut ctx = with_loan();
    assert_eq!(borrow_more(&mut ctx, NOW, 0), Err(EggsError::InvalidParameter));
}

#[test]
fn borrow_more_is_refused_on_the_last_day_of_a_loan() {
    let mut ctx = with_loan();
    // At the loan's own last midnight it has not run out yet, but it ends
    // before the next midnight.
    let at_end = ctx.loan.end_date;
    ctx.state.last_liquidation_date = at_end;
    assert_eq!(borrow_more(&mut ctx, at_end, 500_000_000), Err(EggsError::LoanExpired));
}

#[test]
fn removing_collateral_must_leave_the_debt_covered() {
    let mut ctx = loan_at_par();
    // 99_000 > 99 hundredths of the 99_500 the rest would sell for.
    assert_eq!(remove_collateral(&mut ctx, NOW, 500), Err(EggsError::InsufficientCollateral));
    assert_eq!(ctx.loan.collateral, 100_000);
    assert_eq!(ctx.state.total_collateral, 100_000);
    assert_eq!(remove_collateral(&mut ctx, NOW, 0), Ok(nothing()));
    assert_eq!(remove_collateral(&mut ctx, NOW, 100_001), Err(EggsError::InsufficientCollateral));
}

#[test]
fn collateral_in_excess_can_be_removed() {
    let mut ctx = loan_at_par();
    ctx.loan.collateral = 200_000;
    ctx.daily_loan_data.collateral = 200_000;
    ctx.state.total_collateral = 200_000;
    ctx.escrow_token_amount = 200_000;
    let settlement = remove_collateral(&mut ctx, NOW, 100_000).unwrap();
    assert_eq!(settlement, Settlement { released: 100_000, ..nothing() });
    assert_eq!(ctx.loan.collateral, 100_000);
    assert_eq!(ctx.daily_loan_data.collateral, 100_000);
    assert_eq!(ctx.state.total_collateral, 100_000);
    assert_eq!(ctx.escrow_token_amount, 100_000);
    assert_eq!(remove_collateral(&mut ctx, NOW, 1), Err(EggsError::InsufficientCollateral));
}

#[test]
fn repay_lowers_the_debt() {
    let mut ctx = loan_at_par();
    let settlement = repay(&mut ctx, NOW, 9_000).unwrap();
    assert_eq!(settlement, Settlement { paid_in: 9_000, ..nothing() });
    assert_eq!(ctx.loan.borrowed, 90_000);
    assert_eq!(ctx.daily_loan_data.borrowed, 90_000);
    assert_eq!(ctx.state.total_borrowed, 90_000);
    assert_eq!(ctx.state_account_lamports, 910_000);
    assert_eq!(ctx.loan.collateral, 100_000);
}

#[test]
fn repay_takes_more_than_nothing_and_less_than_the_debt() {
    let mut ctx = loan_at_par();
    assert_eq!(repay(&mut ctx, NOW, 99_000), Err(EggsError::RepayAmountTooLarge));
    assert_eq!(repay(&mut ctx, NOW, 0), Err(EggsError::InvalidParameter));
    let later = ctx.loan.end_date + 1;
    assert_eq!(repay(&mut ctx, later, 1), Err(EggsError::LoanExpired));
    assert_eq!(ctx.loan.borrowed, 99_000);
}

#[test]
fn close_position_hands_the_collateral_back() {
    let mut ctx = loan_at_par();
    let settlement = close_position(&mut ctx, NOW, 99_000).unwrap();
    assert_eq!(settlement, Settlement { paid_in: 99_000, released: 100_000, ..nothing() });
    assert_eq!(
        (ctx.loan.borrowed, ctx.loan.collateral, ctx.loan.end_date, ctx.loan.number_of_days),
        (0, 0, 0, 0)
    );
    assert_eq!((ctx.daily_loan_data.borrowed, ctx.daily_loan_data.collateral), (0, 0));
    assert_eq!((ctx.state.total_borrowed, ctx.state.total_collateral), (0, 0));
    assert_eq!(ctx.state_account_lamports, 1_000_000);
    assert_eq!(ctx.escrow_token_amount, 0);
}

#[test]
fn close_position_takes_the_whole_debt_only() {
    let mut ctx = loan_at_par();
    assert_eq!(close_position(&mut ctx, NOW, 98_999), Err(EggsError::IncorrectRepaymentAmount));
    let later = ctx.loan.end_date + 1;
    assert_eq!(close_position(&mut ctx, later, 99_000), Err(EggsError::LoanExpired));
}

#[test]
fn flash_close_settles_a_loan_out_of_its_collateral() {
    let mut ctx = with_loan();
    let settlement = flash_close_position(&mut ctx, NOW).unwrap();
    assert_eq!(
        settlement,
        Settlement { paid_out: 1_432, fee_paid: 3_000_004, forfeited: 1_000_000_000, ..nothing() }
    );
    assert_eq!((ctx.loan.borrowed, ctx.loan.collateral, ctx.loan.end_date), (0, 0, 0));
    assert_eq!((ctx.state.total_borrowed, ctx.state.total_collateral), (0, 0));
    assert_eq!(ctx.state.total_minted, 999_000_000_000);
    assert_eq!(ctx.escrow_token_amount, 0);
    assert_eq!(ctx.state_account_lamports, 999_011_447_946 - 1_432 - 3_000_004);
}

#[test]
fn flash_close_is_refused_where_the_collateral_is_short() {
    let mut ctx = loan_at_par();
    // 100_000 tokens sell for 100_000, of which 99_000 are just enough.
    ctx.loan.borrowed = 99_001;
    ctx.daily_loan_data.borrowed = 99_001;
    ctx.state.total_borrowed = 99_001;
    ctx.state_account_lamports = 900_999;
    assert_eq!(flash_close_position(&mut ctx, NOW), Err(EggsError::InsufficientCollateral));
    let mut ctx = loan_at_par();
    // The cut of the one hundredth, 300, does not exceed the minimum.
    assert_eq!(flash_close_position(&mut ctx, NOW), Err(EggsError::BelowMinimumValue));
}

#[test]
fn extend_loan_moves_the_loan_to_a_later_bucket() {
    let mut ctx = accounts();
    ctx.state_account_lamports = 2_000_000_000_000;
    ctx.state.total_minted = 2_000_000_000_000;
    ctx.authority_token_amount = u64::MAX;
    borrow(&mut ctx, NOW, 1_000_000_000_000, 10).unwrap();
    assert_eq!(ctx.loan.borrowed, 990_000_000_000);
    let old_end = ctx.loan.end_date;
    let lamports = ctx.state_account_lamports;
    let mut new_bucket = empty_bucket();
    // The interest on 990_000_000_000 lamports for five days.
    let fee = 1_518_904_109u64;
    let settlement = extend_loan(&mut ctx, &mut new_bucket, NOW, 5, fee).unwrap();
    assert_eq!(settlement, Settlement { paid_in: fee, fee_paid: 455_671_232, ..nothing() });
    assert_eq!(ctx.loan.end_date, old_end + 5 * DAY);
    assert_eq!(ctx.loan.number_of_days, 15);
    assert_eq!((ctx.daily_loan_data.borrowed, ctx.daily_loan_data.collateral), (0, 0));
    assert_eq!(ctx.daily_loan_data.date, old_end);
    assert_eq!(new_bucket.date, old_end + 5 * DAY);
    assert_eq!(new_bucket.borrowed, 990_000_000_000);
    assert_eq!(new_bucket.collateral, ctx.loan.collateral);
    assert_eq!(ctx.state.total_borrowed, 990_000_000_000);
    assert_eq!(ctx.state_account_lamports, lamports + fee - 455_671_232);
}

#[test]
fn extend_loan_takes_the_exact_fee_only() {
    let mut ctx = accounts();
    ctx.state_account_lamports = 2_000_000_000_000;
    ctx.state.total_minted = 2_000_000_000_000;
    ctx.authority_token_amount = u64::MAX;
    borrow(&mut ctx, NOW, 1_000_000_000_000, 10).unwrap();
    let mut new_bucket = empty_bucket();
    let before = ctx;
    assert_eq!(
        extend_loan(&mut ctx, &mut new_bucket, NOW, 5, 1_518_904_108),
        Err(EggsError::InvalidFeeAmount)
    );
    assert_eq!(
        extend_loan(&mut ctx, &mut new_bucket, NOW, 366, 1_518_904_109),
        Err(EggsError::LoanTooLong)
    );
    // 360 days more would end the loan 370 days ahead.
    let rate = (39_000_000_000u128 * 360 / 365 + 1_000_000_000) as u128;
    let fee = (990_000_000_000u128 * rate / 1_000_000_000_000) as u64;
    assert_eq!(
        extend_loan(&mut ctx, &mut new_bucket, NOW, 360, fee),
        Err(EggsError::LoanTooLong)
    );
    let later = ctx.loan.end_date + 1;
    assert_eq!(
        extend_loan(&mut ctx, &mut new_bucket, later, 5, 1_518_904_109),
        Err(EggsError::LoanExpired)
    );
    assert_eq!(ctx.loan.end_date, before.loan.end_date);
    assert_eq!(ctx.daily_loan_data.borrowed, before.daily_loan_data.borrowed);
    assert_eq!(new_bucket.borrowed, 0);
    assert_eq!(ctx.state.total_borrowed, before.state.total_borrowed);
}

#[test]
fn the_totals_equal_the_loans_and_buckets_through_a_life_of_a_loan() {
    let mut ctx = with_loan();
    let totals = |ctx: &LoanOperation| (ctx.state.total_borrowed, ctx.state.total_collateral);
    let bucket = |ctx: &LoanOperation| (ctx.daily_loan_data.borrowed, ctx.daily_loan_data.collateral);
    let loan = |ctx: &LoanOperation| (ctx.loan.borrowed, ctx.loan.collateral);
    assert_eq!(totals(&ctx), loan(&ctx));
    assert_eq!(bucket(&ctx), loan(&ctx));
    borrow_more(&mut ctx, NOW + 5, 500_000_000).unwrap();
    assert_eq!(totals(&ctx), loan(&ctx));
    assert_eq!(bucket(&ctx), loan(&ctx));
    repay(&mut ctx, NOW + 6, 400_000_000).unwrap();
    assert_eq!(totals(&ctx), loan(&ctx));
    assert_eq!(bucket(&ctx), loan(&ctx));
    remove_collateral(&mut ctx, NOW + 7, 300_000_000).unwrap();
    assert_eq!(totals(&ctx), loan(&ctx));
    assert_eq!(bucket(&ctx), loan(&ctx));
    let debt = ctx.loan.borrowed;
    close_position(&mut ctx, NOW + 8, debt).unwrap();
    assert_eq!(totals(&ctx), (0, 0));
    assert_eq!(bucket(&ctx), (0, 0));
    assert_eq!(loan(&ctx), (0, 0));
}

#[test]
fn a_loan_that_ran_out_is_forfeited_by_the_sweep() {
    let ctx = with_loan();
    let end = ctx.loan.end_date;
    let mut accounts = LiquidateLoans {
        state: ctx.state,
        escrow_token_amount: ctx.escrow_token_amount,
        daily_loan_data: Vec::new(),
    };
    let mut date = CURSOR;
    while date <= end {
        accounts.daily_loan_data.push(if date == end {
            ctx.daily_loan_data
        } else {
            DailyLoanData { date, borrowed: 0, collateral: 0 }
        });
        date += DAY;
    }
    // Before the loan has run out the sweep stops short of its day.
    let mut early = LiquidateLoans {
        state: accounts.state,
        escrow_token_amount: accounts.escrow_token_amount,
        daily_loan_data: accounts.daily_loan_data.clone(),
    };
    let settlement = liquidate_loans(&mut early, end).unwrap();
    assert_eq!(settlement.forfeited, 0);
    assert_eq!(early.state.last_liquidation_date, end);
    assert_eq!(early.state.total_borrowed, 990_000_000);
    // One second later it takes the loan.
    let settlement = liquidate_loans(&mut accounts, end + 1).unwrap();
    assert_eq!(settlement, Settlement { forfeited: 1_000_000_000, ..nothing() });
    assert_eq!(accounts.state.last_liquidation_date, end + DAY);
    assert_eq!((accounts.state.total_borrowed, accounts.state.total_collateral), (0, 0));
    assert_eq!(accounts.state.total_minted, 999_000_000_000);
    assert_eq!(accounts.escrow_token_amount, 0);
    assert!(accounts.daily_loan_data.iter().all(|d| d.borrowed == 0 && d.collateral == 0));
    // Once the cursor has caught up, nothing changes any more.
    let settlement = liquidate_loans(&mut accounts, end + 1).unwrap();
    assert_eq!(settlement, nothing());
    assert_eq!(accounts.state.last_liquidation_date, end + DAY);
}

#[test]
fn the_sweep_handles_one_day_for_each_bucket() {
    let mut accounts = LiquidateLoans {
        state: state(),
        escrow_token_amount: 0,
        daily_loan_data: vec![empty_bucket(), empty_bucket()],
    };
    liquidate_loans(&mut accounts, CURSOR + 10 * DAY).unwrap();
    assert_eq!(accounts.state.last_liquidation_date, CURSOR + 2 * DAY);
    accounts.daily_loan_data = vec![DailyLoanData { date: CURSOR, borrowed: 1, collateral: 0 }];
    assert_eq!(
        liquidate_loans(&mut accounts, CURSOR + 10 * DAY),
        Err(EggsError::InvalidParameter)
    );
    assert_eq!(accounts.state.last_liquidation_date, CURSOR + 2 * DAY);
}

#[test]
fn the_day_buckets_follow_the_totals() {
    let mut state = state();
    let mut bucket = empty_bucket();
    assert_eq!(add_loans_by_date(&mut state, &mut bucket, 10, 20), Ok(()));
    assert_eq!((state.total_borrowed, state.total_collateral), (10, 20));
    assert_eq!((bucket.borrowed, bucket.collateral), (10, 20));
    assert_eq!(
        add_loans_by_date(&mut state, &mut bucket, u64::MAX, 0),
        Err(EggsError::ArithmeticOverflow)
    );
    assert_eq!((state.total_borrowed, bucket.borrowed), (10, 10));
    assert_eq!(sub_loans_by_date(&mut state, &mut bucket, 4, 30), Ok(()));
    assert_eq!((state.total_borrowed, state.total_collateral), (6, 0));
    assert_eq!((bucket.borrowed, bucket.collateral), (6, 0));
}

#[test]
fn the_loan_helpers_keep_loan_bucket_and_totals_in_step() {
    let mut state = state();
    let mut loan = no_loan();
    let mut bucket = empty_bucket();
    process_loan_creation(&mut state, &mut loan, &mut bucket, CURSOR, 200, 100, 3, address(5))
        .unwrap();
    assert_eq!((loan.borrowed, loan.collateral, loan.end_date, loan.number_of_days), (100, 200, CURSOR, 3));
    assert_eq!((bucket.date, bucket.borrowed, bucket.collateral), (CURSOR, 100, 200));
    assert!(!is_loan_expired(&loan, CURSOR));
    assert!(is_loan_expired(&loan, CURSOR + 1));
    process_loan_repayment(&mut state, &mut loan, &mut bucket, 40).unwrap();
    assert_eq!((loan.borrowed, bucket.borrowed, state.total_borrowed), (60, 60, 60));
    process_collateral_adjustment(&mut state, &mut loan, &mut bucket, 50).unwrap();
    assert_eq!((loan.collateral, bucket.collateral, state.total_collateral), (250, 250, 250));
    process_collateral_adjustment(&mut state, &mut loan, &mut bucket, -100).unwrap();
    assert_eq!((loan.collateral, bucket.collateral, state.total_collateral), (150, 150, 150));
    process_collateral_adjustment(&mut state, &mut loan, &mut bucket, 0).unwrap();
    assert_eq!((loan.collateral, bucket.collateral, state.total_collateral), (150, 150, 150));
    let mut other = DailyLoanData { date: CURSOR + DAY, borrowed: 1, collateral: 1 };
    assert_eq!(
        process_loan_creation(&mut state, &mut loan, &mut other, CURSOR, 1, 1, 1, address(5)),
        Err(EggsError::InvalidParameter)
    );
    close_loan(&mut state, &mut loan, &mut bucket).unwrap();
    assert_eq!((loan.borrowed, loan.collateral, loan.end_date), (0, 0, 0));
    assert_eq!((bucket.borrowed, bucket.collateral), (0, 0));
    assert_eq!((state.total_borrowed, state.total_collateral), (0, 0));
}

#[test]
fn the_loan_helper_moves_a_loan_between_buckets() {
    let mut state = state();
    let mut loan = no_loan();
    let mut old = empty_bucket();
    process_loan_creation(&mut state, &mut loan, &mut old, CURSOR, 200, 100, 3, address(5))
        .unwrap();
    let mut new = empty_bucket();
    bonding_core::eggs::utils::extend_loan(&mut state, &mut loan, &mut old, &mut new, 2).unwrap();
    assert_eq!((loan.end_date, loan.number_of_days), (CURSOR + 2 * DAY, 5));
    assert_eq!((old.borrowed, old.collateral), (0, 0));
    assert_eq!((new.date, new.borrowed, new.collateral), (CURSOR + 2 * DAY, 100, 200));
    assert_eq!((state.total_borrowed, state.total_collateral), (100, 200));
    assert_eq!(
        bonding_core::eggs::utils::extend_loan(&mut state, &mut loan, &mut new, &mut old, 0),
        Err(EggsError::InvalidParameter)
    );
}

#[test]
fn leverage_is_refused_where_the_fee_exceeds_the_amount() {
    let mut ctx = accounts();
    ctx.state.buy_fee_leverage = 2000;
    assert_eq!(leverage(&mut ctx, NOW, 10_000_000_000, 30), Err(EggsError::FeeCalculationError));
}

#[test]
fn the_sweep_is_idle_while_the_cursor_is_not_in_the_past() {
    let mut accounts = LiquidateLoans {
        state: state(),
        escrow_token_amount: 7,
        daily_loan_data: vec![DailyLoanData { date: CURSOR, borrowed: 3, collateral: 4 }],
    };
    accounts.state.total_borrowed = 3;
    accounts.state.total_collateral = 4;
    assert_eq!(liquidate_loans(&mut accounts, CURSOR), Ok(nothing()));
    assert_eq!(accounts.state.last_liquidation_date, CURSOR);
    assert_eq!((accounts.state.total_borrowed, accounts.state.total_collateral), (3, 4));
    assert_eq!(accounts.escrow_token_amount, 7);
    assert_eq!(accounts.daily_loan_data[0].borrowed, 3);
    assert_eq!(accounts.daily_loan_data[0].collateral, 4);
}

#[test]
fn a_collateral_adjustment_stays_within_64_bits() {
    let mut state = state();
    let mut loan = no_loan();
    let mut bucket = empty_bucket();
    process_loan_creation(&mut state, &mut loan, &mut bucket, CURSOR, 200, 100, 3, address(5))
        .unwrap();
    process_collateral_adjustment(&mut state, &mut loan, &mut bucket, i64::MIN).unwrap();
    assert_eq!((loan.collateral, bucket.collateral, state.total_collateral), (0, 0, 0));
    process_collateral_adjustment(&mut state, &mut loan, &mut bucket, i64::MAX).unwrap();
    process_collateral_adjustment(&mut state, &mut loan, &mut bucket, i64::MAX).unwrap();
    assert_eq!(loan.collateral, u64::MAX - 1);
    assert_eq!(
        process_collateral_adjustment(&mut state, &mut loan, &mut bucket, 2),
        Err(EggsError::ArithmeticOverflow)
    );
    assert_eq!((loan.collateral, bucket.collateral), (u64::MAX - 1, u64::MAX - 1));
}

#[test]
fn a_loan_settlement_accounts_for_every_balance() {
    let mut ctx = accounts();
    let before = ctx;
    let s = leverage(&mut ctx, NOW, 10_000_000_000, 30).unwrap();
    assert_eq!(
        ctx.state_account_lamports,
        before.state_account_lamports + s.paid_in - s.paid_out - s.fee_paid
    );
    assert_eq!(
        ctx.escrow_token_amount,
        before.escrow_token_amount + s.minted_to_escrow + s.escrowed - s.released - s.forfeited
    );
    assert_eq!(
        ctx.state.total_minted,
        before.state.total_minted + s.minted + s.minted_to_escrow - s.burned - s.forfeited
    );
    let before = ctx;
    let s = flash_close_position(&mut ctx, NOW + 100).unwrap();
    assert_eq!(
        ctx.state_account_lamports,
        before.state_account_lamports + s.paid_in - s.paid_out - s.fee_paid
    );
    assert_eq!(
        ctx.escrow_token_amount,
        before.escrow_token_amount + s.minted_to_escrow + s.escrowed - s.released - s.forfeited
    );
    assert_eq!(
        ctx.state.total_minted,
        before.state.total_minted + s.minted + s.minted_to_escrow - s.burned - s.forfeited
    );
}

#[test]
fn a_random_walk_keeps_the_books() {
    let mut seed: u64 = 0x9E37_79B9_7F4A_7C15;
    let mut next = move |bound: u64| {
        seed = seed.wrapping_mul(6_364_136_223_846_793_005).wrapping_add(1_442_695_040_888_963_407);
        (seed >> 33) % bound
    };
    let mut ctx = accounts();
    let mut succeeded = 0;
    for step in 0..400 {
        let now = NOW + step;
        let before = ctx;
        let amount = 100_000 + next(3_000_000_000);
        let outcome = match next(7) {
            0 => {
                ctx.daily_loan_data = if ctx.loan.borrowed == 0 {
                    empty_bucket()
                } else {
                    ctx.daily_loan_data
                };
                borrow(&mut ctx, now, amount, next(20))
            }
            1 => {
                ctx.daily_loan_data = if ctx.loan.borrowed == 0 {
                    empty_bucket()
                } else {
                    ctx.daily_loan_data
                };
                leverage(&mut ctx, now, amount * 10, next(20))
            }
            2 => borrow_more(&mut ctx, now, amount),
            3 => repay(&mut ctx, now, amount / 2),
            4 => remove_collateral(&mut ctx, now, amount / 50),
            5 => {
                let debt = ctx.loan.borrowed;
                close_position(&mut ctx, now, debt)
            }
            _ => flash_close_position(&mut ctx, now),
        };
        match outcome {
            Ok(s) => {
                succeeded += 1;
                assert!(ctx.state.last_price >= before.state.last_price);
                assert_eq!(ctx.state.total_borrowed, ctx.loan.borrowed);
                assert_eq!(ctx.state.total_collateral, ctx.loan.collateral);
                assert_eq!(ctx.daily_loan_data.borrowed, ctx.loan.borrowed);
                assert_eq!(ctx.daily_loan_data.collateral, ctx.loan.collateral);
                assert_eq!(ctx.escrow_token_amount, ctx.loan.collateral);
                assert_eq!(
                    ctx.state_account_lamports as u128 + s.paid_out as u128 + s.fee_paid as u128,
                    before.state_account_lamports as u128 + s.paid_in as u128
                );
                assert_eq!(
                    ctx.state.total_minted as u128 + s.burned as u128 + s.forfeited as u128,
                    before.state.total_minted as u128
                        + s.minted as u128
                        + s.minted_to_escrow as u128
                );
            }
            Err(_) => {
                assert_eq!(ctx.state.total_borrowed, before.state.total_borrowed);
                assert_eq!(ctx.state.total_collateral, before.state.total_collateral);
                assert_eq!(ctx.state.total_minted, before.state.total_minted);
                assert_eq!(ctx.state.last_price, before.state.last_price);
                assert_eq!(ctx.state_account_lamports, before.state_account_lamports);
                assert_eq!(ctx.escrow_token_amount, before.escrow_token_amount);
                assert_eq!(ctx.loan.borrowed, before.loan.borrowed);
                assert_eq!(ctx.loan.collateral, before.loan.collateral);
                assert_eq!(ctx.loan.end_date, before.loan.end_date);
            }
        }
    }
    assert!(succeeded > 50);
}

#[test]
fn a_collateral_beyond_64_bits_keeps_its_low_bits() {
    let mut ctx = accounts();
    ctx.state.total_minted = u64::MAX;
    ctx.state.last_price = 0;
    ctx.state_account_lamports = 990_000_000;
    ctx.authority_token_amount = u64::MAX;
    let settlement = borrow(&mut ctx, NOW, 1_000_000_000, 10).unwrap();
    // ceil(1_000_000_000 * (2^64 - 1) / 990_000_000) = 2^64 + 186_330_748_219_288_400.
    assert_eq!(settlement.escrowed, 186_330_748_219_288_400);
    assert_eq!(ctx.loan.collateral, 186_330_748_219_288_400);
    assert_eq!(ctx.loan.borrowed, 990_000_000);
    assert_eq!(ctx.state_account_lamports, 1_447_946);
}

#[test]
fn borrowing_more_can_cost_the_worth_of_a_token_in_roundings() {
    let mut ctx = accounts();
    ctx.state.total_minted = 1_433_899;
    ctx.state.last_price = 0;
    ctx.state_account_lamports = 200_907_875;
    borrow(&mut ctx, NOW, 587_518, 305).unwrap();
    let worth = |ctx: &LoanOperation| {
        let backing = ctx.state.total_borrowed as u128 + ctx.state_account_lamports as u128;
        ctx.loan.collateral as u128 * backing / ctx.state.total_minted as u128
    };
    assert!(ctx.loan.borrowed as u128 <= worth(&ctx) * 99 / 100);
    borrow_more(&mut ctx, NOW, 380_940).unwrap();
    assert_eq!(ctx.loan.borrowed, 958_772);
    assert_eq!(ctx.loan.collateral, 6_911);
    assert_eq!(worth(&ctx) * 99 / 100, 958_745);
    // The debt stays within 99 hundredths of the collateral up to 101
    // hundredths of the backing per token.
    let backing = ctx.state.total_borrowed as u128 + ctx.state_account_lamports as u128;
    let supply = ctx.state.total_minted as u128;
    assert!(
        100 * ctx.loan.borrowed as u128 * supply
            <= 99 * ctx.loan.collateral as u128 * backing + 101 * backing
    );
}

#[test]
fn a_payment_the_caller_cannot_make_is_refused() {
    let mut ctx = loan_at_par();
    ctx.authority_lamports = 8_999;
    assert_eq!(repay(&mut ctx, NOW, 9_000), Err(EggsError::InsufficientFunds));
    assert_eq!(ctx.loan.borrowed, 99_000);
    assert_eq!(ctx.state.total_borrowed, 99_000);
    assert_eq!(ctx.state_account_lamports, 901_000);
    ctx.authority_lamports = 98_999;
    assert_eq!(close_position(&mut ctx, NOW, 99_000), Err(EggsError::InsufficientFunds));
    assert_eq!((ctx.loan.borrowed, ctx.loan.collateral), (99_000, 100_000));
    assert_eq!(ctx.escrow_token_amount, 100_000);
    ctx.authority_lamports = 99_000;
    assert!(close_position(&mut ctx, NOW, 99_000).is_ok());

    let mut ctx = accounts();
    ctx.state_account_lamports = 2_000_000_000_000;
    ctx.state.total_minted = 2_000_000_000_000;
    ctx.authority_token_amount = u64::MAX;
    borrow(&mut ctx, NOW, 1_000_000_000_000, 10).unwrap();
    let mut new_bucket = empty_bucket();
    ctx.authority_lamports = 1_518_904_108;
    assert_eq!(
        extend_loan(&mut ctx, &mut new_bucket, NOW, 5, 1_518_904_109),
        Err(EggsError::InsufficientFunds)
    );
    assert_eq!(ctx.loan.end_date, 1_700_870_400);
    assert_eq!(new_bucket.borrowed, 0);
    ctx.authority_lamports = 1_518_904_109;
    assert!(extend_loan(&mut ctx, &mut new_bucket, NOW, 5, 1_518_904_109).is_ok());
}

/// The accounts a day behind: the cursor stands on the midnight before
/// `NOW`, and the bucket of that day holds a loan that has run out.
fn a_day_behind(mut ctx: LoanOperation) -> LoanOperation {
    ctx.state.last_liquidation_date = CURSOR - DAY;
    ctx.state.total_borrowed += 5_000;
    ctx.state.total_collateral += 6_000;
    ctx.escrow_token_amount += 6_000;
    ctx.liquidation_data =
        DailyLoanData { date: CURSOR - DAY, borrowed: 5_000, collateral: 6_000 };
    ctx
}

/// The same accounts after the sweep has handled the day that was due.
fn caught_up(mut ctx: LoanOperation) -> LoanOperation {
    let burned = liquidate(
        &mut ctx.state,
        &mut ctx.liquidation_data,
        &mut ctx.escrow_token_amount,
        NOW,
    );
    assert_eq!(burned, Ok(6_000));
    ctx
}

#[test]
fn a_step_of_the_sweep_takes_the_bucket_out_of_the_totals() {
    let behind = a_day_behind(with_loan());
    let swept = caught_up(behind);
    assert_eq!(swept.state.total_borrowed, behind.state.total_borrowed - 5_000);
    assert_eq!(swept.state.total_collateral, behind.state.total_collateral - 6_000);
    assert_eq!(swept.state.total_minted, behind.state.total_minted - 6_000);
    assert_eq!(swept.escrow_token_amount, behind.escrow_token_amount - 6_000);
    assert_eq!(swept.state.last_liquidation_date, CURSOR);
    assert_eq!(swept.state.last_price, behind.state.last_price);
    assert_eq!((swept.liquidation_data.borrowed, swept.liquidation_data.collateral), (0, 0));
    assert_eq!(swept.liquidation_data.date, CURSOR - DAY);

    // A bucket without collateral asks for no burn.
    let mut ctx = a_day_behind(with_loan());
    ctx.liquidation_data.collateral = 0;
    let burned = liquidate(
        &mut ctx.state,
        &mut ctx.liquidation_data,
        &mut ctx.escrow_token_amount,
        NOW,
    );
    assert_eq!(burned, Ok(0));
    assert_eq!(ctx.state.total_borrowed, behind.state.total_borrowed - 5_000);
    assert_eq!(ctx.state.total_collateral, behind.state.total_collateral);
    assert_eq!(ctx.escrow_token_amount, behind.escrow_token_amount);
    assert_eq!(ctx.state.last_liquidation_date, CURSOR);

    // Tokens that are not in escrow cannot be burned.
    let mut ctx = a_day_behind(accounts());
    ctx.escrow_token_amount = 5_999;
    let burned = liquidate(
        &mut ctx.state,
        &mut ctx.liquidation_data,
        &mut ctx.escrow_token_amount,
        NOW,
    );
    assert_eq!(burned, Err(EggsError::ContractBalanceInsufficient));
    assert_eq!((ctx.state.total_borrowed, ctx.state.total_collateral), (5_000, 6_000));
    assert_eq!(ctx.state.last_liquidation_date, CURSOR - DAY);
    assert_eq!(ctx.liquidation_data.collateral, 6_000);
}

#[test]
fn leverage_reckons_from_what_the_sweep_leaves() {
    let behind = a_day_behind(accounts());
    let mut ctx = behind;
    let settlement = leverage(&mut ctx, NOW, 10_000_000_000, 30).unwrap();
    assert_eq!(settlement.forfeited, 6_000);
    assert_eq!(settlement.minted_to_escrow, ctx.loan.collateral);
    assert_eq!(ctx.loan.borrowed, 9_759_365_753);
    assert_eq!(ctx.state.last_liquidation_date, CURSOR);
    assert_eq!((ctx.liquidation_data.borrowed, ctx.liquidation_data.collateral), (0, 0));
    assert_eq!(ctx.state.total_minted, 1_000_000_000_000 - 6_000 + ctx.loan.collateral);
    assert_eq!(ctx.state.total_collateral, ctx.loan.collateral);
    assert_eq!(ctx.state.total_borrowed, ctx.loan.borrowed);
    assert_eq!(ctx.escrow_token_amount, ctx.loan.collateral);
    let backing = ctx.state.total_borrowed as u128 + ctx.state_account_lamports as u128;
    assert_eq!(
        ctx.state.last_price as u128,
        backing * 1_000_000_000 / ctx.state.total_minted as u128
    );
    assert!(ctx.state.last_price >= behind.state.last_price);

    // The sweep on its own, and the call after it, come to the same.
    let mut apart = caught_up(behind);
    let second = leverage(&mut apart, NOW, 10_000_000_000, 30).unwrap();
    assert_eq!(second, Settlement { forfeited: 0, ..settlement });
    assert_eq!((apart.loan.collateral, apart.loan.borrowed), (ctx.loan.collateral, ctx.loan.borrowed));
    assert_eq!(apart.state.total_minted, ctx.state.total_minted);
    assert_eq!(apart.state.last_price, ctx.state.last_price);
    assert_eq!(apart.state_account_lamports, ctx.state_account_lamports);
}

#[test]
fn borrow_more_enters_the_same_amounts_in_loan_bucket_and_totals() {
    let behind = a_day_behind(with_loan());
    let swept = caught_up(behind);
    let mut ctx = behind;
    let settlement = borrow_more(&mut ctx, NOW, 500_000_000).unwrap();
    assert_eq!(settlement.forfeited, 6_000);
    assert!(settlement.escrowed > 0);
    // The debt grows by 99 hundredths of the amount, everywhere.
    assert_eq!(ctx.loan.borrowed - behind.loan.borrowed, 495_000_000);
    assert_eq!(ctx.daily_loan_data.borrowed - behind.daily_loan_data.borrowed, 495_000_000);
    assert_eq!(ctx.state.total_borrowed - swept.state.total_borrowed, 495_000_000);
    // The collateral grows by the tokens that went into escrow, everywhere.
    assert_eq!(ctx.loan.collateral - behind.loan.collateral, settlement.escrowed);
    assert_eq!(
        ctx.daily_loan_data.collateral - behind.daily_loan_data.collateral,
        settlement.escrowed
    );
    assert_eq!(ctx.state.total_collateral - swept.state.total_collateral, settlement.escrowed);
    assert_eq!(ctx.escrow_token_amount - swept.escrow_token_amount, settlement.escrowed);
    assert_eq!(ctx.state.total_borrowed, ctx.loan.borrowed);
    assert_eq!(ctx.state.total_collateral, ctx.loan.collateral);

    let mut apart = swept;
    let second = borrow_more(&mut apart, NOW, 500_000_000).unwrap();
    assert_eq!(second, Settlement { forfeited: 0, ..settlement });
    assert_eq!(apart.loan.collateral, ctx.loan.collateral);
    assert_eq!(apart.state.last_price, ctx.state.last_price);
}

use bonding_core::address::Address;
use bonding_core::eggs::{
    initialize, set_buy_fee, set_buy_fee_leverage, set_fee_address, set_sell_fee, set_start,
    EggsError, SetStart,
};

const NOW: i64 = 1_700_000_000;

fn address(byte: u8) -> Address {
    Address { bytes: [byte; 32] }
}

#[test]
fn addresses_compare_by_their_bytes() {
    assert!(Address::unset().is_default());
    assert!(address(0).is_default());
    assert!(!address(1).is_default());
    let mut last = Address::unset();
    last.bytes[31] = 1;
    assert!(!last.is_default());
    assert!(address(3).matches(&address(3)));
    assert!(!address(3).matches(&address(4)));
    assert!(!last.matches(&Address::unset()));
}

#[test]
fn initialize_sets_the_defaults() {
    let state = initialize(address(2), address(1), 254, NOW).unwrap();
    assert!(state.fee_address.is_default());
    assert_eq!((state.sell_fee, state.buy_fee, state.buy_fee_leverage), (975, 975, 10));
    assert!(!state.start);
    assert_eq!((state.total_borrowed, state.total_collateral, state.total_minted), (0, 0, 0));
    assert_eq!(state.last_price, 0);
    assert_eq!(state.last_liquidation_date, 1_700_006_400);
    assert_eq!(state.mint.bytes, [1u8; 32]);
    assert_eq!(state.authority.bytes, [2u8; 32]);
    assert_eq!(state.bump, 254);
    assert_eq!(
        initialize(address(2), address(1), 254, i64::MAX).unwrap_err(),
        EggsError::ArithmeticOverflow
    );
}

#[test]
fn the_fee_address_cannot_be_unset() {
    let mut state = initialize(address(2), address(1), 254, NOW).unwrap();
    assert_eq!(set_fee_address(&mut state, address(0)), Err(EggsError::InvalidParameter));
    assert!(state.fee_address.is_default());
    assert_eq!(set_fee_address(&mut state, address(7)), Ok(()));
    assert_eq!(state.fee_address.bytes, [7u8; 32]);
}

#[test]
fn the_fees_stay_within_their_bounds() {
    let mut state = initialize(address(2), address(1), 254, NOW).unwrap();
    assert_eq!(set_buy_fee(&mut state, 974), Err(EggsError::InvalidParameter));
    assert_eq!(set_buy_fee(&mut state, 993), Err(EggsError::InvalidParameter));
    assert_eq!(state.buy_fee, 975);
    assert_eq!(set_buy_fee(&mut state, 992), Ok(()));
    assert_eq!(state.buy_fee, 992);
    assert_eq!(set_buy_fee(&mut state, 975), Ok(()));
    assert_eq!(set_sell_fee(&mut state, 974), Err(EggsError::InvalidParameter));
    assert_eq!(set_sell_fee(&mut state, 993), Err(EggsError::InvalidParameter));
    assert_eq!(set_sell_fee(&mut state, 990), Ok(()));
    assert_eq!(state.sell_fee, 990);
    assert_eq!(set_buy_fee_leverage(&mut state, 26), Err(EggsError::InvalidParameter));
    assert_eq!(state.buy_fee_leverage, 10);
    assert_eq!(set_buy_fee_leverage(&mut state, 25), Ok(()));
    assert_eq!(set_buy_fee_leverage(&mut state, 0), Ok(()));
    assert_eq!(state.buy_fee_leverage, 0);
}

#[test]
fn trading_starts_with_a_first_deposit() {
    let state = initialize(address(2), address(1), 254, NOW).unwrap();
    let mut ctx = SetStart { state, state_account_lamports: 0 };
    assert_eq!(set_start(&mut ctx, 2_000_000_000), Err(EggsError::FeeAddressNotSet));
    set_fee_address(&mut ctx.state, address(7)).unwrap();
    assert_eq!(set_start(&mut ctx, 999_999_999), Err(EggsError::BelowMinimumValue));
    // A thousand tokens for each lamport must fit in 64 bits.
    assert_eq!(set_start(&mut ctx, 18_446_744_073_709_552), Err(EggsError::MaxSupplyExceeded));
    assert!(!ctx.state.start);
    let mut large = ctx;
    let settlement = set_start(&mut large, 18_446_744_073_709_551).unwrap();
    assert_eq!(settlement.minted, 18_446_744_073_709_551_000);
    assert_eq!(large.state.total_minted, 18_446_744_073_709_551_000);
    let settlement = set_start(&mut ctx, 2_000_000_000).unwrap();
    assert_eq!(settlement.paid_in, 2_000_000_000);
    assert_eq!(settlement.minted, 2_000_000_000_000);
    assert!(ctx.state.start);
    assert_eq!(ctx.state.total_minted, 2_000_000_000_000);
    assert_eq!(ctx.state_account_lamports, 2_000_000_000);
    assert_eq!(set_start(&mut ctx, 2_000_000_000), Err(EggsError::TradingNotInitialized));
}

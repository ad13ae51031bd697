use bonding_core::math::{mul_div_ceil_u64, mul_div_u64, narrow, share};
use bonding_core::pricing::{
    quote_leverage, quote_no_trade, quote_no_trade_ceil, quote_price, quote_trade_buy,
    quote_trade_sell,
};

#[test]
fn buy_quote_leaves_the_deposit_out_of_the_backing() {
    // 100_000 * 1_000_000 / (1_000_000 - 100_000), rounded down.
    assert_eq!(quote_trade_buy(100_000, 1_000_000, 1_000_000), Some(111_111));
    // The buy fee of 975 parts in a thousand.
    assert_eq!(mul_div_u64(111_111, 975, 1000), 108_333);
}

#[test]
fn buy_quote_needs_backing_besides_the_deposit() {
    assert_eq!(quote_trade_buy(5, 10, 5), None);
    assert_eq!(quote_trade_buy(6, 10, 5), None);
    assert_eq!(quote_trade_buy(5, 10, 6), Some(50));
}

#[test]
fn sell_quote_is_proportional_to_backing() {
    assert_eq!(quote_trade_sell(99_500, 1_000_000, 1_000_000), Some(99_500));
    assert_eq!(quote_trade_sell(10, 3, 7), Some(23));
    assert_eq!(quote_trade_sell(10, 0, 7), None);
}

#[test]
fn no_trade_rounds_down_and_its_ceiling_up() {
    assert_eq!(quote_no_trade(10, 7, 3), Some(23));
    assert_eq!(quote_no_trade_ceil(10, 7, 3), Some(24));
    assert_eq!(quote_no_trade(9, 7, 3), Some(21));
    assert_eq!(quote_no_trade_ceil(9, 7, 3), Some(21));
    assert_eq!(quote_no_trade(1, 1, 0), None);
    assert_eq!(quote_no_trade_ceil(1, 1, 0), None);
}

#[test]
fn leverage_quote_keeps_the_fee_out_of_the_backing() {
    // ceil(1000 * 500 / (110 - 10)) = 5000
    assert_eq!(quote_leverage(1000, 10, 500, 110), Some(5000));
    // ceil(1000 * 500 / (113 - 10)) = ceil(4854.36..) = 4855
    assert_eq!(quote_leverage(1000, 10, 500, 113), Some(4855));
    assert_eq!(quote_leverage(1000, 10, 500, 10), None);
    assert_eq!(quote_leverage(1000, 11, 500, 10), None);
}

#[test]
fn price_is_backing_per_token_in_fixed_point() {
    assert_eq!(quote_price(1_000_000, 1_000_000), Some(1_000_000_000));
    assert_eq!(quote_price(998_750, 1_108_333), Some(901_128_090));
    assert_eq!(quote_price(1, 0), None);
}

#[test]
fn wide_products_do_not_overflow() {
    let max = u64::MAX;
    assert_eq!(mul_div_u64(max, max, max), max);
    assert_eq!(mul_div_ceil_u64(max, max, max), max);
    assert_eq!(share(max, 99, 100), 18_262_276_632_972_456_098);
}

#[test]
fn a_quotient_beyond_64_bits_keeps_its_low_bits() {
    // (2^64 - 1)^2 / 1 = 2^128 - 2^65 + 1, whose low 64 bits are 1.
    assert_eq!(mul_div_u64(u64::MAX, u64::MAX, 1), 1);
    assert_eq!(narrow((1u128 << 64) + 5), 5);
    assert_eq!(narrow(7), 7);
}

#[test]
fn rounding_up_never_falls_below_rounding_down() {
    let cases: [(u64, u64, u64); 5] =
        [(10, 7, 3), (9, 7, 3), (0, 5, 9), (123_456_789, 987_654_321, 1_000_003), (1, 1, 1)];
    for (amount, supply, backing) in cases {
        let down = quote_no_trade(amount, supply, backing).unwrap();
        let up = quote_no_trade_ceil(amount, supply, backing).unwrap();
        assert!(up >= down);
        let exact = (amount as u128 * supply as u128) % (backing as u128) == 0;
        assert_eq!(up == down, exact);
    }
}

#[test]
fn buying_and_selling_back_never_gains() {
    let cases: [(u64, u64, u64); 4] = [
        (100_000, 1_000_000, 900_000),
        (1, 3, 7),
        (5_000_000_000, 123_456_789_012, 98_765_432_109),
        (77, 1, 1),
    ];
    for (deposit, supply, backing) in cases {
        let minted = quote_trade_buy(deposit, supply, backing + deposit).unwrap();
        let back = quote_trade_sell(minted, supply + minted, backing + deposit).unwrap();
        assert!(back <= deposit);
    }
}

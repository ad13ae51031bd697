//! Fees: the interest on a loan, the protocol's cut of a fee, and the part
//! of an amount that may be lent against it.

use vstd::prelude::*;
use crate::math::{lemma_ceil_is_floor_plus_carry, lemma_floor_bounds, mul_div, share};
use crate::pricing::{no_trade, no_trade_ceil};

verus! {

/// A year of interest is spread over this many days.
pub const DAYS_PER_YEAR: u64 = 365;

/// No loan runs for this many days or more.
pub const TERM_LIMIT_DAYS: u64 = 366;

/// The rate charged for a term of `days` days: the yearly rate in proportion
/// to the term, plus a flat part. Fixed point, in the scale of its arguments.
pub open spec fn interest_rate(days: int, yearly_rate: int, flat_rate: int) -> int {
    yearly_rate * days / 365 + flat_rate
}

/// The interest on `amount` for `days` days, rounded down. `precision` is
/// the fixed-point scale of the two rates.
pub open spec fn interest_fee(
    amount: int,
    days: int,
    yearly_rate: int,
    flat_rate: int,
    precision: int,
) -> int {
    mul_div(amount, interest_rate(days, yearly_rate, flat_rate), precision)
}

/// The protocol's cut of a fee: three tenths, rounded down.
pub open spec fn protocol_cut(fee: int) -> int {
    mul_div(fee, 3, 10)
}

/// What may be lent against a value: 99 hundredths of it, rounded down.
pub open spec fn lendable(value: int) -> int {
    mul_div(value, 99, 100)
}

/// The buffer kept back from a value: one hundredth of it, rounded down.
pub open spec fn buffer(value: int) -> int {
    value / 100
}

/// The protocol's cut of `fee`.
pub fn protocol_cut_of(fee: u64) -> (cut: u64)
    ensures
        cut == protocol_cut(fee as int),
        cut <= fee,
{
    share(fee, 3, 10)
}

/// What may be lent against `value`.
pub fn lendable_of(value: u64) -> (loan: u64)
    ensures
        loan == lendable(value as int),
        loan <= value,
{
    share(value, 99, 100)
}

/// The buffer kept back from `value`.
pub fn buffer_of(value: u64) -> (kept: u64)
    ensures
        kept == buffer(value as int),
        kept <= value,
{
    value / 100
}

/// The interest for less than 366 days is no more than the rate of a whole
/// year, with the flat part, would give, and never more than the amount.
pub proof fn lemma_interest_bounded(
    amount: int,
    days: int,
    yearly_rate: int,
    flat_rate: int,
    precision: int,
)
    requires
        0 <= amount,
        0 <= days < 366,
        0 <= yearly_rate,
        0 <= flat_rate,
        yearly_rate + flat_rate <= precision,
        0 < precision,
    ensures
        0 <= interest_fee(amount, days, yearly_rate, flat_rate, precision) <= mul_div(
            amount,
            yearly_rate + flat_rate,
            precision,
        ) <= amount,
{
    assert(0 <= yearly_rate * days <= yearly_rate * 365) by (nonlinear_arith)
        requires
            0 <= days <= 365,
            0 <= yearly_rate,
    ;
    crate::math::lemma_mul_div_monotonic_right(
        amount,
        interest_rate(days, yearly_rate, flat_rate),
        yearly_rate + flat_rate,
        precision,
    );
    crate::math::lemma_mul_div_le(amount, yearly_rate + flat_rate, precision);
}

/// The interest on `amount` for a term of `days` days, or `None` for a term
/// of a year and a day or longer. The rates are in the scale `precision`,
/// and together they stay below it, so that the fee never exceeds the
/// amount.
pub fn interest_fee_of(
    amount: u64,
    days: u64,
    yearly_rate: u64,
    flat_rate: u64,
    precision: u64,
) -> (fee: Option<u64>)
    requires
        0 < precision,
        yearly_rate <= 0xFFFF_FFFF_FFFF,
        yearly_rate + flat_rate <= precision,
    ensures
        fee == (if days < 366 {
            Some(
                interest_fee(
                    amount as int,
                    days as int,
                    yearly_rate as int,
                    flat_rate as int,
                    precision as int,
                ) as u64,
            )
        } else {
            None
        }),
        days < 366 ==> 0 <= interest_fee(
            amount as int,
            days as int,
            yearly_rate as int,
            flat_rate as int,
            precision as int,
        ) <= amount,
{
    if days >= TERM_LIMIT_DAYS {
        return None;
    }
    proof {
        assert(0 <= yearly_rate * days <= yearly_rate * 365) by (nonlinear_arith)
            requires
                0 <= days <= 365,
                0 <= yearly_rate,
        ;
    }
    let rate: u64 = yearly_rate * days / DAYS_PER_YEAR + flat_rate;
    Some(share(amount, rate, precision))
}

/// What a further loan on top of a running one leaves covered.
///
/// A loan owes `debt` and holds `collateral`, of which 99 hundredths cover
/// the token value of the debt. A further `amount` is lent at 99 hundredths,
/// and `added` tokens of collateral come in: at least what the token value
/// of `amount`, rounded up, exceeds the cover that was free. Then the whole
/// debt, at the supply, exceeds 99 hundredths of the whole collateral, at
/// the backing, by less than 101 hundredths of the backing: by the worth of
/// about one token, which the roundings can cost.
pub proof fn lemma_further_loan_nearly_covered(
    debt: int,
    collateral: int,
    amount: int,
    added: int,
    supply: int,
    backing: int,
    backing_after: int,
)
    requires
        0 <= debt,
        0 <= collateral,
        0 <= amount,
        0 < supply,
        0 < backing <= backing_after,
        lendable(collateral) >= no_trade(debt, supply, backing),
        0 <= added <= no_trade_ceil(amount, supply, backing),
        added >= no_trade_ceil(amount, supply, backing) - (lendable(collateral) - no_trade(
            debt,
            supply,
            backing,
        )),
    ensures
        100 * ((debt + lendable(amount)) * supply) <= 99 * ((collateral + added) * backing_after)
            + 101 * backing,
{
    let asked = no_trade_ceil(amount, supply, backing);
    let owed = no_trade(debt, supply, backing);
    let cover = lendable(collateral);
    let lent = lendable(amount);
    lemma_ceil_is_floor_plus_carry(amount * supply, backing);
    lemma_floor_bounds(debt * supply, backing);
    assert(100 * (lent * supply) <= 99 * (amount * supply)) by (nonlinear_arith)
        requires
            100 * lent <= 99 * amount,
            0 <= supply,
    ;
    assert((cover + added) * backing >= (asked + owed) * backing) by (nonlinear_arith)
        requires
            cover + added >= asked + owed,
            0 < backing,
    ;
    assert((asked + owed) * backing == backing * asked + backing * owed) by (nonlinear_arith);
    assert(added * backing <= backing * asked) by (nonlinear_arith)
        requires
            0 <= added <= asked,
            0 < backing,
    ;
    assert(99 * ((collateral + added) * backing) >= 100 * ((cover + added) * backing) - added
        * backing) by (nonlinear_arith)
        requires
            100 * cover <= 99 * collateral,
            0 < backing,
            0 <= added,
    ;
    assert((collateral + added) * backing <= (collateral + added) * backing_after)
        by (nonlinear_arith)
        requires
            0 <= collateral + added,
            backing <= backing_after,
    ;
    assert((debt + lent) * supply == debt * supply + lent * supply) by (nonlinear_arith);
}

} // verus!

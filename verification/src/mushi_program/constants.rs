//! The fixed numbers of the protocol.

use vstd::prelude::*;

verus! {

/// Base units in one unit of the quote asset; also the fixed-point scale of
/// the price.
pub const LAMPORTS_PER_ECLIPSE: u64 = 1_000_000_000;

/// Starting the protocol takes at least this much of the quote asset.
pub const MIN_INITIALIZE_TOKEN_AMOUNT: u64 = 1_000_000_000;

/// Tokens burned when the protocol starts.
pub const INITIAL_BURN_TOKEN_AMOUNT: u64 = 10_000_000_000_000;

/// A fee has to exceed this many base units.
pub const MIN: u64 = 1000;

/// Tokens minted for each base unit of the first deposit.
pub const MIN_INITIALIZE_RATIO: u64 = 1;

/// The buy and sell fees are parts of a thousand.
pub const FEE_BASE_1000: u64 = 1000;

/// The team fees are parts of ten thousand.
pub const TEAM_FEE_BASE: u64 = 10_000;

/// The treasury's part of every purchase, in parts of ten thousand.
pub const FEES_BUY: u64 = 100;

/// The referrer's part of every purchase, in parts of ten thousand.
pub const FEES_BUY_REFERRAL: u64 = 25;

/// The treasury's part of every sale, in parts of ten thousand.
pub const FEES_SELL: u64 = 125;

/// No more tokens than this may ever be outstanding.
pub const MAX_SUPPLY: u64 = 50_000_000_000_000_000;

/// Yearly interest, 3.9 %, in the scale of [`INTEREST_PRECISION`].
pub const YEARLY_RATE: u64 = 39_000_000;

/// Flat interest, 0.1 %, in the scale of [`INTEREST_PRECISION`].
pub const FLAT_RATE: u64 = 1_000_000;

/// The fixed-point scale of the interest rates.
pub const INTEREST_PRECISION: u64 = 1_000_000_000;

} // verus!

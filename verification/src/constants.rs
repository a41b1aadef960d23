use vstd::prelude::*;

verus! {

/// Largest number of decimals a token may have: balances carry this many.
pub const BALANCE_DECIMALS: u8 = 12;

/// One whole, in the fixed-point scale of utilization and of the curve's
/// utilization parameter.
pub const BANK_UTILIZATION_PRECISION: u128 = 1_000_000;

/// Seconds in a year of 365 days: interest rates are yearly.
pub const ONE_YEAR: u128 = 31_536_000;

/// One whole, in the fixed-point scale of margin ratios and buffers.
pub const MARGIN_PRECISION_U128: u128 = 10_000;

/// One whole, in the fixed-point scale of prices and of the margin ratio.
pub const PRICE_PRECISION: u128 = 1_000_000;

} // verus!

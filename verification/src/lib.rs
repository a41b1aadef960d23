//! Risk accounting for a leveraged lending pool: conversions between
//! interest-bearing balances and token amounts, the interest-rate curve,
//! and the accumulator that decides whether an account is solvent.

pub mod bank;
pub mod balance_laws;
pub mod bank_balance;
pub mod bank_map;
pub mod constants;
pub mod error;
pub mod margin;
pub mod margin_calculation;

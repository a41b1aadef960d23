use vstd::prelude::*;
use crate::constants::BALANCE_DECIMALS;
use crate::constants::BANK_UTILIZATION_PRECISION;

verus! {

/// Which side of the pool a balance is on. It selects the cumulative
/// interest index and the direction of rounding.
#[derive(Clone, Copy, Debug, PartialEq, Eq, Structural)]
pub enum BankBalanceType {
    Deposit,
    Borrow,
}

/// A snapshot of one lending pool.
#[derive(Clone, Copy, Debug)]
pub struct Bank {
    /// Decimals of the pooled token.
    pub decimals: u8,
    /// Multiplier that turns a deposit balance into tokens.
    pub cumulative_deposit_interest: u128,
    /// Multiplier that turns a borrow balance into tokens.
    pub cumulative_borrow_interest: u128,
    /// Sum of all deposit balances.
    pub deposit_balance: u128,
    /// Sum of all borrow balances.
    pub borrow_balance: u128,
    /// Utilization at which the rate curve bends.
    pub optimal_utilization: u128,
    /// Yearly borrow rate at the bend.
    pub optimal_borrow_rate: u128,
    /// Yearly borrow rate at full utilization.
    pub max_borrow_rate: u128,
    /// Time of the last interest accrual, in seconds.
    pub last_updated: u64,
}

impl Bank {
    /// The index that belongs to one side of the pool.
    pub open spec fn cumulative_interest(&self, balance_type: BankBalanceType) -> u128 {
        match balance_type {
            BankBalanceType::Deposit => self.cumulative_deposit_interest,
            BankBalanceType::Borrow => self.cumulative_borrow_interest,
        }
    }

    /// What holds of every pool that was kept correctly: the token has
    /// at most as many decimals as a balance, borrowers pay at least what
    /// depositors earn, and the curve bends strictly inside the range of
    /// utilization, below its ceiling.
    pub open spec fn wf(&self) -> bool {
        &&& self.decimals <= BALANCE_DECIMALS
        &&& 0 < self.cumulative_deposit_interest <= self.cumulative_borrow_interest
        &&& 0 < self.optimal_utilization < BANK_UTILIZATION_PRECISION
        &&& self.optimal_borrow_rate <= self.max_borrow_rate
    }
}

} // verus!

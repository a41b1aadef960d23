use vstd::prelude::*;
use vstd::arithmetic::power::pow;
use vstd::arithmetic::power::lemma_pow_increases;
use vstd::arithmetic::power::lemma_pow_positive;
use crate::bank::Bank;
use crate::bank::BankBalanceType;
use crate::constants::BALANCE_DECIMALS;
use crate::constants::BANK_UTILIZATION_PRECISION;
use crate::constants::ONE_YEAR;
use crate::error::ErrorCode;

verus! {

/// The factor between the precision of a balance and that of a token with
/// `decimals` decimals: ten to the power of the decimals that a balance has
/// more.
pub open spec fn precision_scale(decimals: u8) -> int
    recommends
        decimals <= BALANCE_DECIMALS,
{
    pow(10, (BALANCE_DECIMALS - decimals) as nat)
}

/// The rounding policy. A deposit keeps the floor; a borrow that is not
/// zero is charged one unit more.
pub open spec fn round_for(balance_type: BankBalanceType, quotient: int) -> int {
    if balance_type == BankBalanceType::Borrow && quotient != 0 {
        quotient + 1
    } else {
        quotient
    }
}

/// Tokens that `balance` stands for at cumulative interest `index`.
pub open spec fn token_amount_of(
    balance: int,
    index: int,
    scale: int,
    balance_type: BankBalanceType,
) -> int {
    round_for(balance_type, balance * index / scale)
}

/// Balance that stands for `token_amount` at cumulative interest `index`.
pub open spec fn balance_of(
    token_amount: int,
    index: int,
    scale: int,
    balance_type: BankBalanceType,
) -> int {
    round_for(balance_type, token_amount * scale / index)
}

/// What `get_token_amount` returns.
pub open spec fn token_amount_result(
    balance: u128,
    bank: &Bank,
    balance_type: BankBalanceType,
) -> Result<u128, ErrorCode> {
    let index = bank.cumulative_interest(balance_type);
    let amount = token_amount_of(
        balance as int,
        index as int,
        precision_scale(bank.decimals),
        balance_type,
    );
    if bank.decimals <= BALANCE_DECIMALS && balance * index <= u128::MAX && amount <= u128::MAX {
        Ok(amount as u128)
    } else {
        Err(ErrorCode::MathError)
    }
}

/// What `get_bank_balance` returns.
pub open spec fn bank_balance_result(
    token_amount: u128,
    bank: &Bank,
    balance_type: BankBalanceType,
) -> Result<u128, ErrorCode> {
    let index = bank.cumulative_interest(balance_type);
    let scale = precision_scale(bank.decimals);
    let balance = balance_of(token_amount as int, index as int, scale, balance_type);
    if bank.decimals <= BALANCE_DECIMALS && token_amount * scale <= u128::MAX && index != 0
        && balance <= u128::MAX {
        Ok(balance as u128)
    } else {
        Err(ErrorCode::MathError)
    }
}

/// Every scale lies between one and ten to the twelfth.
pub proof fn lemma_precision_scale_bounds(decimals: u8)
    requires
        decimals <= BALANCE_DECIMALS,
    ensures
        1 <= precision_scale(decimals) <= 1_000_000_000_000,
{
    let e = (BALANCE_DECIMALS - decimals) as nat;
    lemma_pow_positive(10, e);
    lemma_pow_increases(10, e, 12);
    assert(pow(10, 12) == 1_000_000_000_000) by {
        reveal_with_fuel(pow, 13);
    }
}

/// Ten to the power of `exponent`.
fn power_of_ten(exponent: u8) -> (r: u128)
    requires
        exponent <= BALANCE_DECIMALS,
    ensures
        r == pow(10, exponent as nat),
{
    let mut r: u128 = 1;
    let mut i: u8 = 0;
    proof {
        reveal_with_fuel(pow, 1);
    }
    while i < exponent
        invariant
            i <= exponent <= BALANCE_DECIMALS,
            r == pow(10, i as nat),
        decreases exponent - i,
    {
        proof {
            lemma_precision_scale_bounds((BALANCE_DECIMALS - i) as u8);
            reveal_with_fuel(pow, 2);
        }
        r = r * 10;
        i = i + 1;
    }
    r
}

/// The scale for a token of `decimals` decimals, or the arithmetic error
/// where it has more decimals than a balance.
fn get_precision_scale(decimals: u8) -> (r: Result<u128, ErrorCode>)
    ensures
        decimals <= BALANCE_DECIMALS ==> r == Ok::<u128, ErrorCode>(precision_scale(decimals) as u128)
            && 1 <= precision_scale(decimals) <= 1_000_000_000_000,
        decimals > BALANCE_DECIMALS ==> r == Err::<u128, ErrorCode>(ErrorCode::MathError),
{
    match BALANCE_DECIMALS.checked_sub(decimals) {
        Some(exponent) => {
            proof {
                lemma_precision_scale_bounds(decimals);
            }
            Ok(power_of_ten(exponent))
        },
        None => Err(ErrorCode::MathError),
    }
}

/// Applies the rounding policy to a quotient.
fn round_quotient(quotient: u128, balance_type: &BankBalanceType) -> (r: Result<u128, ErrorCode>)
    ensures
        round_for(*balance_type, quotient as int) <= u128::MAX ==> r == Ok::<u128, ErrorCode>(
            round_for(*balance_type, quotient as int) as u128,
        ),
        round_for(*balance_type, quotient as int) > u128::MAX ==> r == Err::<u128, ErrorCode>(
            ErrorCode::MathError,
        ),
{
    if quotient != 0 && *balance_type == BankBalanceType::Borrow {
        match quotient.checked_add(1) {
            Some(rounded) => Ok(rounded),
            None => Err(ErrorCode::MathError),
        }
    } else {
        Ok(quotient)
    }
}

/// Converts a balance into the token amount it stands for: the balance
/// times the cumulative interest of its side, divided by the scale of the
/// token, rounded down for a deposit and up by one unit for a borrow that
/// is not zero. Fails with the arithmetic error if the token has more than
/// twelve decimals or a step leaves the range of `u128`.
pub fn get_token_amount(balance: u128, bank: &Bank, balance_type: &BankBalanceType) -> (r: Result<
    u128,
    ErrorCode,
>)
    ensures
        r == token_amount_result(balance, bank, *balance_type),
{
    let precision_decrease = get_precision_scale(bank.decimals)?;
    let cumulative_interest = match balance_type {
        BankBalanceType::Deposit => bank.cumulative_deposit_interest,
        BankBalanceType::Borrow => bank.cumulative_borrow_interest,
    };
    let product = match balance.checked_mul(cumulative_interest) {
        Some(product) => product,
        None => { return Err(ErrorCode::MathError); },
    };
    let quotient = match product.checked_div(precision_decrease) {
        Some(quotient) => quotient,
        None => { return Err(ErrorCode::MathError); },
    };
    round_quotient(quotient, balance_type)
}

/// Converts a token amount into the balance that stands for it: the amount
/// times the scale of the token, divided by the cumulative interest of its
/// side, rounded down for a deposit and up by one unit for a borrow that is
/// not zero. Fails with the arithmetic error if the token has more than
/// twelve decimals, the cumulative interest is zero, or a step leaves the
/// range of `u128`.
pub fn get_bank_balance(token_amount: u128, bank: &Bank, balance_type: &BankBalanceType) -> (r:
    Result<u128, ErrorCode>)
    ensures
        r == bank_balance_result(token_amount, bank, *balance_type),
{
    let precision_increase = get_precision_scale(bank.decimals)?;
    let cumulative_interest = match balance_type {
        BankBalanceType::Deposit => bank.cumulative_deposit_interest,
        BankBalanceType::Borrow => bank.cumulative_borrow_interest,
    };
    let product = match token_amount.checked_mul(precision_increase) {
        Some(product) => product,
        None => { return Err(ErrorCode::MathError); },
    };
    let quotient = match product.checked_div(cumulative_interest) {
        Some(quotient) => quotient,
        None => { return Err(ErrorCode::MathError); },
    };
    round_quotient(quotient, balance_type)
}

/// Tokens that all deposits of the pool stand for.
pub fn get_bank_deposit_token_amount(bank: &Bank) -> (r: Result<u128, ErrorCode>)
    ensures
        r == token_amount_result(bank.deposit_balance, bank, BankBalanceType::Deposit),
{
    get_token_amount(bank.deposit_balance, bank, &BankBalanceType::Deposit)
}

/// Tokens that all borrows of the pool stand for.
pub fn get_bank_borrow_token_amount(bank: &Bank) -> (r: Result<u128, ErrorCode>)
    ensures
        r == token_amount_result(bank.borrow_balance, bank, BankBalanceType::Borrow),
{
    get_token_amount(bank.borrow_balance, bank, &BankBalanceType::Borrow)
}

/// What one accrual adds to the two cumulative interest indices.
#[derive(Clone, Copy, Debug, PartialEq, Eq, Structural)]
pub struct CumulativeInterestDelta {
    pub borrow_delta: u128,
    pub deposit_delta: u128,
}

/// The share of the deposited tokens that is lent out, in utilization
/// precision. A pool without deposits is unused if nothing is borrowed
/// either, and fully used otherwise.
pub open spec fn utilization_of(deposit_token_amount: int, borrow_token_amount: int) -> int {
    if deposit_token_amount != 0 {
        borrow_token_amount * BANK_UTILIZATION_PRECISION / deposit_token_amount
    } else if borrow_token_amount == 0 {
        0
    } else {
        BANK_UTILIZATION_PRECISION as int
    }
}

/// What `calculate_utilization` returns.
pub open spec fn utilization_result(
    deposit_token_amount: u128,
    borrow_token_amount: u128,
) -> Result<u128, ErrorCode> {
    if borrow_token_amount * BANK_UTILIZATION_PRECISION <= u128::MAX {
        Ok(utilization_of(deposit_token_amount as int, borrow_token_amount as int) as u128)
    } else {
        Err(ErrorCode::MathError)
    }
}

/// Rate gained per unit of utilization below the bend of the curve, in
/// utilization precision.
pub open spec fn lower_slope(bank: &Bank) -> int {
    bank.optimal_borrow_rate * BANK_UTILIZATION_PRECISION / (bank.optimal_utilization as int)
}

/// Rate gained per unit of utilization from the bend of the curve on, in
/// utilization precision.
pub open spec fn upper_slope(bank: &Bank) -> int {
    (bank.max_borrow_rate - bank.optimal_borrow_rate) * BANK_UTILIZATION_PRECISION / (
    BANK_UTILIZATION_PRECISION - bank.optimal_utilization)
}

/// The first segment of the curve: the line from the origin to the bend.
pub open spec fn lower_segment_rate(bank: &Bank, utilization: int) -> int {
    utilization * lower_slope(bank) / (BANK_UTILIZATION_PRECISION as int)
}

/// The second segment of the curve: the line from the bend towards the
/// ceiling rate.
pub open spec fn upper_segment_rate(bank: &Bank, utilization: int) -> int {
    bank.optimal_borrow_rate + (utilization - bank.optimal_utilization) * upper_slope(bank) / (
    BANK_UTILIZATION_PRECISION as int)
}

/// The yearly borrow rate at a utilization: the first segment below the
/// optimal utilization, the second at or above it.
pub open spec fn borrow_rate_of(bank: &Bank, utilization: int) -> int {
    if utilization >= bank.optimal_utilization {
        upper_segment_rate(bank, utilization)
    } else {
        lower_segment_rate(bank, utilization)
    }
}

/// Whether every step towards the borrow rate stays in the range of
/// `u128` and divides by something other than zero.
pub open spec fn borrow_rate_in_range(bank: &Bank, utilization: int) -> bool {
    if utilization >= bank.optimal_utilization {
        &&& bank.optimal_borrow_rate <= bank.max_borrow_rate
        &&& (bank.max_borrow_rate - bank.optimal_borrow_rate) * BANK_UTILIZATION_PRECISION
            <= u128::MAX
        &&& bank.optimal_utilization < BANK_UTILIZATION_PRECISION
        &&& (utilization - bank.optimal_utilization) * upper_slope(bank) <= u128::MAX
        &&& upper_segment_rate(bank, utilization) <= u128::MAX
    } else {
        &&& bank.optimal_borrow_rate * BANK_UTILIZATION_PRECISION <= u128::MAX
        &&& utilization * lower_slope(bank) <= u128::MAX
    }
}

/// What `calculate_borrow_rate` returns.
pub open spec fn borrow_rate_result(bank: &Bank, utilization: u128) -> Result<u128, ErrorCode> {
    if borrow_rate_in_range(bank, utilization as int) {
        Ok(borrow_rate_of(bank, utilization as int) as u128)
    } else {
        Err(ErrorCode::MathError)
    }
}

/// Seconds from the last accrual to `now`. A negative `now` is no point in
/// time; one before the last accrual is an arithmetic error.
pub open spec fn elapsed_result(now: i64, last_updated: u64) -> Result<u64, ErrorCode> {
    if now < 0 {
        Err(ErrorCode::UnableToCastUnixTime)
    } else if now < last_updated {
        Err(ErrorCode::MathError)
    } else {
        Ok((now - last_updated) as u64)
    }
}

/// Interest that borrowers owe for `elapsed` seconds at a yearly `rate`,
/// before the division by the length of the year.
pub open spec fn borrow_interest_of(rate: int, elapsed: int) -> int {
    rate * elapsed
}

/// The part of the borrowers' interest that depositors receive: the share
/// of their tokens that is lent out.
pub open spec fn deposit_interest_of(borrow_interest: int, utilization: int) -> int {
    borrow_interest * utilization / (BANK_UTILIZATION_PRECISION as int)
}

/// Growth of a cumulative interest index under an interest: interest
/// compounds on the index itself.
pub open spec fn index_delta_of(index: int, interest: int) -> int {
    index * interest / (ONE_YEAR as int)
}

/// The two deltas for a pool at a given utilization and rate after
/// `elapsed` seconds, or the arithmetic error where a product leaves the
/// range of `u128`.
pub open spec fn accrual_result(bank: &Bank, utilization: u128, rate: u128, elapsed: u64) -> Result<
    CumulativeInterestDelta,
    ErrorCode,
> {
    let borrow_interest = borrow_interest_of(rate as int, elapsed as int);
    let deposit_interest = deposit_interest_of(borrow_interest, utilization as int);
    if borrow_interest <= u128::MAX && borrow_interest * utilization <= u128::MAX
        && bank.cumulative_borrow_interest * borrow_interest <= u128::MAX
        && bank.cumulative_deposit_interest * deposit_interest <= u128::MAX {
        Ok(
            CumulativeInterestDelta {
                borrow_delta: index_delta_of(
                    bank.cumulative_borrow_interest as int,
                    borrow_interest,
                ) as u128,
                deposit_delta: index_delta_of(
                    bank.cumulative_deposit_interest as int,
                    deposit_interest,
                ) as u128,
            },
        )
    } else {
        Err(ErrorCode::MathError)
    }
}

/// What `get_cumulative_interest_delta` returns: each stage in turn, and
/// the error of the first that fails.
pub open spec fn cumulative_interest_delta_result(bank: &Bank, now: i64) -> Result<
    CumulativeInterestDelta,
    ErrorCode,
> {
    match token_amount_result(bank.deposit_balance, bank, BankBalanceType::Deposit) {
        Err(e) => Err(e),
        Ok(deposit_token_amount) => match token_amount_result(
            bank.borrow_balance,
            bank,
            BankBalanceType::Borrow,
        ) {
            Err(e) => Err(e),
            Ok(borrow_token_amount) => match utilization_result(
                deposit_token_amount,
                borrow_token_amount,
            ) {
                Err(e) => Err(e),
                Ok(utilization) => match borrow_rate_result(bank, utilization) {
                    Err(e) => Err(e),
                    Ok(rate) => match elapsed_result(now, bank.last_updated) {
                        Err(e) => Err(e),
                        Ok(elapsed) => accrual_result(bank, utilization, rate, elapsed),
                    },
                },
            },
        },
    }
}

/// The utilization of a pool from the tokens deposited and borrowed.
/// Fails with the arithmetic error if the borrowed amount in utilization
/// precision leaves the range of `u128`.
pub fn calculate_utilization(deposit_token_amount: u128, borrow_token_amount: u128) -> (r: Result<
    u128,
    ErrorCode,
>)
    ensures
        r == utilization_result(deposit_token_amount, borrow_token_amount),
{
    let scaled = match borrow_token_amount.checked_mul(BANK_UTILIZATION_PRECISION) {
        Some(scaled) => scaled,
        None => { return Err(ErrorCode::MathError); },
    };
    match scaled.checked_div(deposit_token_amount) {
        Some(utilization) => Ok(utilization),
        None => {
            if borrow_token_amount == 0 {
                Ok(0)
            } else {
                Ok(BANK_UTILIZATION_PRECISION)
            }
        },
    }
}

/// The yearly borrow rate of a pool at a utilization, on the curve of two
/// segments that its parameters describe. Fails with the arithmetic error
/// if a step leaves the range of `u128`, the ceiling rate lies below the
/// optimal rate, or the bend lies at or beyond full utilization.
pub fn calculate_borrow_rate(bank: &Bank, utilization: u128) -> (r: Result<u128, ErrorCode>)
    ensures
        r == borrow_rate_result(bank, utilization),
{
    if utilization >= bank.optimal_utilization {
        let surplus_utilization = utilization - bank.optimal_utilization;
        let rate_range = match bank.max_borrow_rate.checked_sub(bank.optimal_borrow_rate) {
            Some(rate_range) => rate_range,
            None => { return Err(ErrorCode::MathError); },
        };
        let scaled_range = match rate_range.checked_mul(BANK_UTILIZATION_PRECISION) {
            Some(scaled_range) => scaled_range,
            None => { return Err(ErrorCode::MathError); },
        };
        let utilization_range = match BANK_UTILIZATION_PRECISION.checked_sub(
            bank.optimal_utilization,
        ) {
            Some(utilization_range) => utilization_range,
            None => { return Err(ErrorCode::MathError); },
        };
        let borrow_rate_slope = match scaled_range.checked_div(utilization_range) {
            Some(borrow_rate_slope) => borrow_rate_slope,
            None => { return Err(ErrorCode::MathError); },
        };
        let surplus_product = match surplus_utilization.checked_mul(borrow_rate_slope) {
            Some(surplus_product) => surplus_product,
            None => { return Err(ErrorCode::MathError); },
        };
        let surplus_rate = surplus_product / BANK_UTILIZATION_PRECISION;
        match bank.optimal_borrow_rate.checked_add(surplus_rate) {
            Some(rate) => Ok(rate),
            None => Err(ErrorCode::MathError),
        }
    } else {
        let scaled_rate = match bank.optimal_borrow_rate.checked_mul(BANK_UTILIZATION_PRECISION) {
            Some(scaled_rate) => scaled_rate,
            None => { return Err(ErrorCode::MathError); },
        };
        let borrow_rate_slope = scaled_rate / bank.optimal_utilization;
        match utilization.checked_mul(borrow_rate_slope) {
            Some(product) => Ok(product / BANK_UTILIZATION_PRECISION),
            None => Err(ErrorCode::MathError),
        }
    }
}

/// Seconds since the last accrual of a pool.
pub fn time_since_last_update(now: i64, last_updated: u64) -> (r: Result<u64, ErrorCode>)
    ensures
        r == elapsed_result(now, last_updated),
{
    if now < 0 {
        return Err(ErrorCode::UnableToCastUnixTime);
    }
    match (now as u64).checked_sub(last_updated) {
        Some(elapsed) => Ok(elapsed),
        None => Err(ErrorCode::MathError),
    }
}

/// One accrual step of a pool at time `now`: its utilization, the borrow
/// rate on the curve, the interest of borrowers and depositors for the
/// time since the last accrual, and from those the growth of the two
/// cumulative interest indices. The pool is not changed. Fails with the
/// error of the first step that fails.
pub fn get_cumulative_interest_delta(bank: &Bank, now: i64) -> (r: Result<
    CumulativeInterestDelta,
    ErrorCode,
>)
    ensures
        r == cumulative_interest_delta_result(bank, now),
{
    let deposit_token_amount = get_bank_deposit_token_amount(bank)?;
    let borrow_token_amount = get_bank_borrow_token_amount(bank)?;
    let utilization = calculate_utilization(deposit_token_amount, borrow_token_amount)?;
    let interest_rate = calculate_borrow_rate(bank, utilization)?;
    let elapsed = time_since_last_update(now, bank.last_updated)?;

    let borrow_interest = match interest_rate.checked_mul(elapsed as u128) {
        Some(borrow_interest) => borrow_interest,
        None => { return Err(ErrorCode::MathError); },
    };
    let deposit_interest = match borrow_interest.checked_mul(utilization) {
        Some(product) => product / BANK_UTILIZATION_PRECISION,
        None => { return Err(ErrorCode::MathError); },
    };
    let borrow_delta = match bank.cumulative_borrow_interest.checked_mul(borrow_interest) {
        Some(product) => product / ONE_YEAR,
        None => { return Err(ErrorCode::MathError); },
    };
    let deposit_delta = match bank.cumulative_deposit_interest.checked_mul(deposit_interest) {
        Some(product) => product / ONE_YEAR,
        None => { return Err(ErrorCode::MathError); },
    };
    Ok(CumulativeInterestDelta { borrow_delta, deposit_delta })
}

} // verus!

use vstd::prelude::*;
use vstd::arithmetic::div_mod::lemma_div_by_multiple;
use vstd::arithmetic::div_mod::lemma_div_is_ordered;
use vstd::arithmetic::div_mod::lemma_div_pos_is_pos;
use vstd::arithmetic::div_mod::lemma_fundamental_div_mod;
use vstd::arithmetic::div_mod::lemma_mod_bound;
use crate::bank::Bank;
use crate::bank::BankBalanceType;
use crate::bank_balance::balance_of;
use crate::bank_balance::bank_balance_result;
use crate::bank_balance::cumulative_interest_delta_result;
use crate::bank_balance::lemma_precision_scale_bounds;
use crate::bank_balance::lower_segment_rate;
use crate::bank_balance::lower_slope;
use crate::bank_balance::precision_scale;
use crate::bank_balance::round_for;
use crate::bank_balance::token_amount_of;
use crate::bank_balance::token_amount_result;
use crate::bank_balance::upper_segment_rate;
use crate::bank_balance::upper_slope;
use crate::bank_balance::utilization_result;
use crate::bank_balance::CumulativeInterestDelta;
use crate::constants::BANK_UTILIZATION_PRECISION;
use crate::error::ErrorCode;

verus! {

/// A floor quotient times its divisor misses the dividend by less than the
/// divisor.
pub proof fn lemma_floor_bounds(x: int, d: int)
    requires
        0 <= x,
        0 < d,
    ensures
        0 <= x / d,
        (x / d) * d <= x < (x / d) * d + d,
        (x / d) * d == x - x % d,
{
    lemma_fundamental_div_mod(x, d);
    lemma_mod_bound(x, d);
    lemma_div_pos_is_pos(x, d);
    assert(d * (x / d) == (x / d) * d) by (nonlinear_arith);
}

/// A dividend that reaches `k` times the divisor has a quotient of at
/// least `k`.
pub proof fn lemma_quotient_at_least(x: int, d: int, k: int)
    requires
        0 < d,
        0 <= k,
        k * d <= x,
    ensures
        k <= x / d,
{
    lemma_div_is_ordered(k * d, x, d);
    lemma_div_by_multiple(k, d);
}

/// A dividend below `k + 1` times the divisor has a quotient of at most
/// `k`.
pub proof fn lemma_quotient_at_most(x: int, d: int, k: int)
    requires
        0 < d,
        0 <= x,
        x < (k + 1) * d,
    ensures
        x / d <= k,
{
    lemma_floor_bounds(x, d);
    let q = x / d;
    assert(q < k + 1) by (nonlinear_arith)
        requires
            q * d <= x,
            x < (k + 1) * d,
            0 < d,
    ;
}

/// The rounding policy keeps the order of quotients, and keeps it strict.
pub proof fn lemma_round_for_monotonic(balance_type: BankBalanceType, p: int, q: int)
    requires
        0 <= p <= q,
    ensures
        round_for(balance_type, p) <= round_for(balance_type, q),
        p < q <==> round_for(balance_type, p) < round_for(balance_type, q),
        p <= round_for(balance_type, p) <= p + 1,
{
}

/// A borrow is never charged less than the exact value of its balance:
/// the token amount times the scale reaches the balance times the index.
/// The one exception is an exact value above zero and below one token
/// unit, which is charged nothing.
pub proof fn lemma_borrow_never_undercharged(balance: nat, index: nat, scale: nat)
    requires
        0 < scale,
        !(0 < balance * index < scale),
    ensures
        token_amount_of(balance as int, index as int, scale as int, BankBalanceType::Borrow)
            * scale >= balance * index,
{
    let x = (balance * index) as int;
    let s = scale as int;
    let q = x / s;
    lemma_floor_bounds(x, s);
    if q != 0 {
        assert((q + 1) * s == q * s + s) by (nonlinear_arith);
    } else {
        assert(q * s == 0) by (nonlinear_arith)
            requires
                q == 0,
        ;
    }
}

/// With the balance fixed, a higher cumulative interest never lowers the
/// token amount of a borrow. It raises it exactly if it raises the
/// quotient before rounding, and that it does whenever the balance times
/// the gain in interest reaches the scale.
pub proof fn lemma_borrow_amount_monotonic(
    balance: nat,
    index_low: nat,
    index_high: nat,
    scale: nat,
)
    requires
        0 < scale,
        index_low <= index_high,
    ensures
        token_amount_of(balance as int, index_low as int, scale as int, BankBalanceType::Borrow)
            <= token_amount_of(
            balance as int,
            index_high as int,
            scale as int,
            BankBalanceType::Borrow,
        ),
        token_amount_of(balance as int, index_low as int, scale as int, BankBalanceType::Borrow)
            < token_amount_of(
            balance as int,
            index_high as int,
            scale as int,
            BankBalanceType::Borrow,
        ) <==> (balance * index_low) / scale < (balance * index_high) / scale,
        balance * (index_high - index_low) >= scale ==> token_amount_of(
            balance as int,
            index_low as int,
            scale as int,
            BankBalanceType::Borrow,
        ) < token_amount_of(
            balance as int,
            index_high as int,
            scale as int,
            BankBalanceType::Borrow,
        ),
{
    let lo = (balance * index_low) as int;
    let hi = (balance * index_high) as int;
    let s = scale as int;
    assert(lo <= hi) by (nonlinear_arith)
        requires
            lo == balance * index_low,
            hi == balance * index_high,
            index_low <= index_high,
    ;
    lemma_div_is_ordered(lo, hi, s);
    lemma_floor_bounds(lo, s);
    lemma_floor_bounds(hi, s);
    lemma_round_for_monotonic(BankBalanceType::Borrow, lo / s, hi / s);
    if balance * (index_high - index_low) >= scale {
        assert(hi >= lo + s) by (nonlinear_arith)
            requires
                lo == balance * index_low,
                hi == balance * index_high,
                balance * (index_high - index_low) >= s,
        ;
        let q = lo / s;
        assert((q + 1) * s == q * s + s) by (nonlinear_arith);
        lemma_quotient_at_least(hi, s, q + 1);
    }
}

/// A deposit that is turned into tokens and back never grows, and comes
/// back whole exactly if its exact value is a whole number of token
/// units. Where the scale does not exceed the index it loses at most one
/// unit.
pub proof fn lemma_deposit_round_trip(balance: nat, index: nat, scale: nat)
    requires
        0 < scale,
        0 < index,
    ensures
        ({
            let tokens = token_amount_of(
                balance as int,
                index as int,
                scale as int,
                BankBalanceType::Deposit,
            );
            let back = balance_of(tokens, index as int, scale as int, BankBalanceType::Deposit);
            &&& 0 <= back <= balance
            &&& back == balance <==> (balance * index) % scale == 0
            &&& scale <= index ==> balance - 1 <= back
        }),
{
    let x = (balance * index) as int;
    let s = scale as int;
    let i = index as int;
    let b = balance as int;
    let t = x / s;
    lemma_floor_bounds(x, s);
    let y = t * s;
    assert(0 <= y) by (nonlinear_arith)
        requires
            y == t * s,
            0 <= t,
            0 < s,
    ;
    let back = y / i;
    lemma_floor_bounds(y, i);
    assert(x == b * i);
    // never more than the balance
    assert(y < (b + 1) * i) by (nonlinear_arith)
        requires
            y <= x,
            x == b * i,
            0 < i,
    ;
    lemma_quotient_at_most(y, i, b);
    if x % s == 0 {
        lemma_quotient_at_least(y, i, b);
    } else {
        assert(y < b * i);
        if b > 0 {
            assert(b * i == (b - 1 + 1) * i);
            lemma_quotient_at_most(y, i, b - 1);
        }
    }
    if scale <= index && b > 0 {
        assert((b - 1) * i <= y) by (nonlinear_arith)
            requires
                x - s < y,
                x == b * i,
                s <= i,
        ;
        lemma_quotient_at_least(y, i, b - 1);
    }
}

/// A borrow that is turned into tokens and back grows by at least one
/// unit, provided it is worth at least one token unit; where the scale
/// does not exceed the index it grows by at most two. A borrow of nothing
/// comes back as nothing.
pub proof fn lemma_borrow_round_trip(balance: nat, index: nat, scale: nat)
    requires
        0 < scale,
        0 < index,
    ensures
        ({
            let tokens = token_amount_of(
                balance as int,
                index as int,
                scale as int,
                BankBalanceType::Borrow,
            );
            let back = balance_of(tokens, index as int, scale as int, BankBalanceType::Borrow);
            &&& balance == 0 ==> back == 0
            &&& balance * index >= scale ==> balance + 1 <= back
            &&& balance * index >= scale && scale <= index ==> back <= balance + 2
            &&& balance * index < scale ==> back == 0
        }),
{
    let x = (balance * index) as int;
    let s = scale as int;
    let i = index as int;
    let b = balance as int;
    let q = x / s;
    lemma_floor_bounds(x, s);
    assert(x == b * i);
    if x >= s {
        lemma_quotient_at_least(x, s, 1);
        let t = q + 1;
        let y = t * s;
        assert(y == q * s + s) by (nonlinear_arith)
            requires
                y == (q + 1) * s,
        ;
        assert(b >= 1) by (nonlinear_arith)
            requires
                b * i >= s,
                s > 0,
                b >= 0,
                i > 0,
        ;
        lemma_quotient_at_least(y, i, b);
        if scale <= index {
            assert(y < (b + 1 + 1) * i) by (nonlinear_arith)
                requires
                    y <= x + s,
                    x == b * i,
                    s <= i,
                    0 < i,
            ;
            lemma_quotient_at_most(y, i, b + 1);
        }
    } else {
        lemma_quotient_at_most(x, s, 0);
        assert(q == 0);
        assert(0 * s == 0);
        assert(0int / i == 0) by {
            lemma_quotient_at_most(0, i, 0);
            lemma_div_pos_is_pos(0, i);
        }
    }
    if balance == 0 {
        assert(x == 0) by (nonlinear_arith)
            requires
                x == b * i,
                b == 0,
        ;
    }
}

/// Round trip of a balance through `get_token_amount` and
/// `get_bank_balance`, where both succeed.
///
/// A deposit never comes back larger, comes back whole exactly if its
/// exact value is a whole number of token units, and loses at most one
/// unit where the scale does not exceed the index. A borrow that is worth
/// at least one token unit comes back at least one unit larger, and at
/// most two where the scale does not exceed the index; one that is worth
/// less comes back as nothing.
pub proof fn lemma_balance_round_trip(
    bank: &Bank,
    balance: u128,
    balance_type: BankBalanceType,
    token_amount: u128,
    back: u128,
)
    requires
        token_amount_result(balance, bank, balance_type) == Ok::<u128, ErrorCode>(token_amount),
        bank_balance_result(token_amount, bank, balance_type) == Ok::<u128, ErrorCode>(back),
    ensures
        balance_type == BankBalanceType::Deposit ==> {
            &&& back <= balance
            &&& back == balance <==> (balance * bank.cumulative_deposit_interest)
                % precision_scale(bank.decimals) == 0
            &&& precision_scale(bank.decimals) <= bank.cumulative_deposit_interest ==> balance - 1
                <= back
        },
        balance_type == BankBalanceType::Borrow ==> {
            &&& token_amount > 0 ==> balance + 1 <= back
            &&& token_amount > 0 && precision_scale(bank.decimals)
                <= bank.cumulative_borrow_interest ==> back <= balance + 2
            &&& token_amount == 0 ==> back == 0
        },
{
    lemma_precision_scale_bounds(bank.decimals);
    let scale = precision_scale(bank.decimals) as nat;
    let index = bank.cumulative_interest(balance_type) as nat;
    lemma_floor_bounds(balance * index, scale as int);
    match balance_type {
        BankBalanceType::Deposit => {
            lemma_deposit_round_trip(balance as nat, index, scale);
        },
        BankBalanceType::Borrow => {
            lemma_borrow_round_trip(balance as nat, index, scale);
            if balance * index >= scale {
                lemma_quotient_at_least(balance * index, scale as int, 1);
            } else {
                lemma_quotient_at_most(balance * index, scale as int, 0);
            }
        },
    }
}

/// Two pools that differ in their cumulative borrow interest alone: the
/// one with the higher interest never gives fewer tokens for the same
/// borrow balance. It gives more exactly if the quotient before rounding
/// is larger, which it is whenever the balance times the gain in interest
/// reaches the scale.
pub proof fn lemma_borrow_token_amount_monotonic(
    low: &Bank,
    high: &Bank,
    balance: u128,
    amount_low: u128,
    amount_high: u128,
)
    requires
        low.decimals == high.decimals,
        low.cumulative_borrow_interest <= high.cumulative_borrow_interest,
        token_amount_result(balance, low, BankBalanceType::Borrow) == Ok::<u128, ErrorCode>(
            amount_low,
        ),
        token_amount_result(balance, high, BankBalanceType::Borrow) == Ok::<u128, ErrorCode>(
            amount_high,
        ),
    ensures
        amount_low <= amount_high,
        amount_low < amount_high <==> (balance * low.cumulative_borrow_interest) / precision_scale(
            low.decimals,
        ) < (balance * high.cumulative_borrow_interest) / precision_scale(low.decimals),
        balance * (high.cumulative_borrow_interest - low.cumulative_borrow_interest)
            >= precision_scale(low.decimals) ==> amount_low < amount_high,
{
    lemma_precision_scale_bounds(low.decimals);
    lemma_borrow_amount_monotonic(
        balance as nat,
        low.cumulative_borrow_interest as nat,
        high.cumulative_borrow_interest as nat,
        precision_scale(low.decimals) as nat,
    );
}

/// The token amount that `get_token_amount` gives for a borrow covers the
/// exact value of the balance, unless that value lies above zero and
/// below one token unit.
pub proof fn lemma_borrow_token_amount_covers_value(bank: &Bank, balance: u128, token_amount: u128)
    requires
        token_amount_result(balance, bank, BankBalanceType::Borrow) == Ok::<u128, ErrorCode>(
            token_amount,
        ),
        !(0 < balance * bank.cumulative_borrow_interest < precision_scale(bank.decimals)),
    ensures
        token_amount * precision_scale(bank.decimals) >= balance * bank.cumulative_borrow_interest,
{
    lemma_precision_scale_bounds(bank.decimals);
    lemma_borrow_never_undercharged(
        balance as nat,
        bank.cumulative_borrow_interest as nat,
        precision_scale(bank.decimals) as nat,
    );
}

/// The two segments of the rate curve meet at the optimal utilization: the
/// second gives the optimal borrow rate there, and the first gives it too,
/// or one unit less where its slope was rounded down.
pub proof fn lemma_rate_curve_continuous(bank: &Bank)
    requires
        0 < bank.optimal_utilization <= BANK_UTILIZATION_PRECISION,
    ensures
        upper_segment_rate(bank, bank.optimal_utilization as int) == bank.optimal_borrow_rate,
        bank.optimal_borrow_rate - 1 <= lower_segment_rate(bank, bank.optimal_utilization as int)
            <= bank.optimal_borrow_rate,
{
    let u = bank.optimal_utilization as int;
    let r = bank.optimal_borrow_rate as int;
    let p = BANK_UTILIZATION_PRECISION as int;
    assert((u - u) * upper_slope(bank) == 0) by (nonlinear_arith);
    let x = r * p;
    assert(0 <= x) by (nonlinear_arith)
        requires
            x == r * p,
            0 <= r,
            0 < p,
    ;
    let slope = lower_slope(bank);
    assert(slope == x / u);
    lemma_floor_bounds(x, u);
    let y = u * slope;
    assert(y == slope * u) by (nonlinear_arith)
        requires
            y == u * slope,
    ;
    assert(0 <= y) by (nonlinear_arith)
        requires
            y == u * slope,
            0 <= slope,
            0 < u,
    ;
    assert(y < (r + 1) * p) by (nonlinear_arith)
        requires
            y <= x,
            x == r * p,
            0 < p,
    ;
    lemma_quotient_at_most(y, p, r);
    if r > 0 {
        assert((r - 1) * p <= y) by (nonlinear_arith)
            requires
                x - u < y,
                x == r * p,
                u <= p,
        ;
        lemma_quotient_at_least(y, p, r - 1);
    } else {
        lemma_div_pos_is_pos(y, p);
    }
}

/// A pool with neither deposits nor borrows has utilization zero, and an
/// accrual adds nothing to either index. The accrual fails only if the
/// optimal borrow rate in utilization precision leaves the range of
/// `u128`.
pub proof fn lemma_empty_pool_accrues_nothing(bank: &Bank, now: i64)
    requires
        bank.wf(),
        bank.deposit_balance == 0,
        bank.borrow_balance == 0,
        bank.last_updated <= now,
    ensures
        token_amount_result(bank.deposit_balance, bank, BankBalanceType::Deposit) == Ok::<
            u128,
            ErrorCode,
        >(0),
        token_amount_result(bank.borrow_balance, bank, BankBalanceType::Borrow) == Ok::<
            u128,
            ErrorCode,
        >(0),
        utilization_result(0, 0) == Ok::<u128, ErrorCode>(0),
        cumulative_interest_delta_result(bank, now) == (if bank.optimal_borrow_rate
            * BANK_UTILIZATION_PRECISION <= u128::MAX {
            Ok::<CumulativeInterestDelta, ErrorCode>(
                CumulativeInterestDelta { borrow_delta: 0, deposit_delta: 0 },
            )
        } else {
            Err::<CumulativeInterestDelta, ErrorCode>(ErrorCode::MathError)
        }),
{
    lemma_precision_scale_bounds(bank.decimals);
    let scale = precision_scale(bank.decimals);
    assert(0int / scale == 0) by {
        lemma_quotient_at_most(0, scale, 0);
        lemma_div_pos_is_pos(0, scale);
    }
    assert(0 * bank.cumulative_deposit_interest == 0);
    assert(0 * bank.cumulative_borrow_interest == 0);
    let slope = lower_slope(bank);
    assert(0 * slope == 0);
    assert(lower_segment_rate(bank, 0) == 0);
    let elapsed = (now - bank.last_updated) as int;
    assert(0 * elapsed == 0);
    assert(bank.cumulative_borrow_interest * 0 == 0);
    assert(bank.cumulative_deposit_interest * 0 == 0);
}

/// A pool without deposits whose borrows are worth at least one token
/// unit is fully used: its utilization is the whole precision. The
/// computation fails only if the borrowed amount in utilization precision
/// leaves the range of `u128`.
pub proof fn lemma_borrows_without_deposits_saturate(bank: &Bank, borrow_token_amount: u128)
    requires
        bank.deposit_balance == 0,
        token_amount_result(bank.borrow_balance, bank, BankBalanceType::Borrow) == Ok::<
            u128,
            ErrorCode,
        >(borrow_token_amount),
        borrow_token_amount > 0,
    ensures
        token_amount_result(bank.deposit_balance, bank, BankBalanceType::Deposit) == Ok::<
            u128,
            ErrorCode,
        >(0),
        utilization_result(0, borrow_token_amount) == (if borrow_token_amount
            * BANK_UTILIZATION_PRECISION <= u128::MAX {
            Ok::<u128, ErrorCode>(BANK_UTILIZATION_PRECISION)
        } else {
            Err::<u128, ErrorCode>(ErrorCode::MathError)
        }),
{
    lemma_precision_scale_bounds(bank.decimals);
    let scale = precision_scale(bank.decimals);
    assert(0int / scale == 0) by {
        lemma_quotient_at_most(0, scale, 0);
        lemma_div_pos_is_pos(0, scale);
    }
    assert(0 * bank.cumulative_deposit_interest == 0);
}

} // verus!

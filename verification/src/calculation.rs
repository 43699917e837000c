//! The annuity calculation: from the four loan inputs to the three displayed
//! figures (total cost, monthly cost, interest paid).
//!
//! All arithmetic is exact fixed-point integer arithmetic. A scaled quantity
//! carries nine fractional decimal digits (`SCALE`); each division rounds to
//! the nearest representable value. The interest rate input is given in
//! thousandths of a percent per year (`5500` means 5.5 % per year), matching
//! the three decimals the rate control offers.
//!
//! The standard annuity formula `a * r * (1+r)^n / ((1+r)^n - 1)` is
//! undefined when the monthly rate `r` is zero or the number of payments `n`
//! is zero. The policy here is explicit: with no payments every figure is
//! zero except the interest, which is minus the principal (nothing was ever
//! paid back); with a zero rate the monthly cost is the principal spread
//! evenly over the payments, plus the fixed fee.

use vstd::prelude::*;
use vstd::arithmetic::div_mod::*;
use vstd::arithmetic::mul::*;

verus! {

/// Fixed-point scale: a scaled quantity carries nine fractional decimal digits.
pub const SCALE: u128 = 1_000_000_000;

/// Half of `SCALE`, the bias that turns truncating division into
/// round-to-nearest division.
pub const HALF_SCALE: u128 = 500_000_000;

/// Cap on the accumulated growth factor `(1 + r)^n`. It corresponds to a
/// factor of one hundred thousand, far above anything reachable from the
/// admitted input ranges (at most 20 % per year over 50 years stays below a
/// factor of twenty-one thousand).
pub const GROWTH_CAP: u128 = 100_000_000_000_000;

/// The three figures the calculator displays.
#[derive(Clone, Copy, PartialEq, Eq, Structural, Debug)]
pub struct LoanResult {
    pub total_cost: i64,
    pub monthly_cost: i64,
    pub interest_paid: i64,
}

/// The monthly interest rate as a scaled fixed-point fraction:
/// `rate_milli` thousandths of a percent per year, divided by 100 000 to a
/// plain fraction and by 12 to a monthly rate, rounded to nearest.
pub open spec fn spec_rate_fx(rate_milli: int) -> int {
    (rate_milli * SCALE + 600_000) / 1_200_000
}

/// One month of compounding applied to a scaled growth factor, capped.
pub open spec fn spec_pow_step(acc: int, r_fx: int) -> int {
    let grown = (acc * (SCALE + r_fx) + HALF_SCALE) / (SCALE as int);
    if grown > GROWTH_CAP {
        GROWTH_CAP as int
    } else {
        grown
    }
}

/// The scaled growth factor `(1 + r)^n`: `n` months of compounding at the
/// scaled monthly rate `r_fx`.
pub open spec fn spec_pow_fx(r_fx: int, n: nat) -> int
    decreases n,
{
    if n == 0 {
        SCALE as int
    } else {
        spec_pow_step(spec_pow_fx(r_fx, (n - 1) as nat), r_fx)
    }
}

/// The monthly cost: the annuity payment rounded to whole units, plus the
/// fixed per-term fee, under the documented zero-rate and zero-duration
/// policies.
pub open spec fn spec_monthly_cost(amount: int, rate_milli: int, years: int, fee: int) -> int {
    let n = years * 12;
    if n <= 0 {
        0
    } else if rate_milli == 0 {
        (amount + n / 2) / n + fee
    } else {
        let r_fx = spec_rate_fx(rate_milli);
        let p = spec_pow_fx(r_fx, n as nat);
        let d = p - SCALE;
        let factor = (r_fx * p + d / 2) / d;
        (amount * factor + HALF_SCALE) / (SCALE as int) + fee
    }
}

/// The total cost: the monthly cost paid once per month of the loan period.
pub open spec fn spec_total_cost(amount: int, rate_milli: int, years: int, fee: int) -> int {
    spec_monthly_cost(amount, rate_milli, years, fee) * (years * 12)
}

/// The interest paid: whatever the total cost exceeds the principal by.
pub open spec fn spec_interest_paid(amount: int, rate_milli: int, years: int, fee: int) -> int {
    spec_total_cost(amount, rate_milli, years, fee) - amount
}

fn monthly_rate_fx(rate_milli: u64) -> (r: u128)
    requires
        rate_milli <= 20_000,
    ensures
        r == spec_rate_fx(rate_milli as int),
        r <= 16_666_667,
        rate_milli >= 1 ==> r >= 833,
{
    proof {
        if rate_milli >= 1 {
            lemma_mul_inequality(1, rate_milli as int, SCALE as int);
            lemma_div_is_ordered(
                1_000_600_000,
                rate_milli as int * SCALE + 600_000,
                1_200_000,
            );
        }
        lemma_mul_inequality(rate_milli as int, 20_000, SCALE as int);
        lemma_div_is_ordered(
            rate_milli as int * SCALE + 600_000,
            20_000_000_600_000,
            1_200_000,
        );
    }
    ((rate_milli as u128) * SCALE + 600_000) / 1_200_000
}

/// The scaled growth factor stays within `[SCALE, GROWTH_CAP]`, never
/// shrinks under one more month of compounding, and once at least one month
/// has been compounded it has grown by at least one monthly rate (unless the
/// rate is so large that the very first step hits the cap).
proof fn lemma_pow_fx_bounds(r_fx: int, n: nat)
    requires
        0 <= r_fx,
    ensures
        SCALE <= spec_pow_fx(r_fx, n) <= GROWTH_CAP,
        n >= 1 && SCALE + r_fx <= GROWTH_CAP ==> spec_pow_fx(r_fx, n) >= SCALE + r_fx,
        n >= 1 && r_fx >= 1 ==> spec_pow_fx(r_fx, n) > SCALE,
    decreases n,
{
    if n > 0 {
        lemma_pow_fx_bounds(r_fx, (n - 1) as nat);
        let prev = spec_pow_fx(r_fx, (n - 1) as nat);
        let grown = (prev * (SCALE + r_fx) + HALF_SCALE) / (SCALE as int);
        assert(prev * (SCALE as int) <= prev * (SCALE + r_fx)) by {
            lemma_mul_left_inequality(prev, SCALE as int, SCALE + r_fx);
        }
        assert((prev * (SCALE as int)) / (SCALE as int) == prev) by {
            lemma_div_multiples_vanish(prev, SCALE as int);
        }
        assert(grown >= prev) by {
            lemma_div_is_ordered(
                prev * (SCALE as int),
                prev * (SCALE + r_fx) + HALF_SCALE,
                SCALE as int,
            );
        }
        if n == 1 {
            assert(prev == SCALE);
            assert(((SCALE as int) * (SCALE + r_fx) + HALF_SCALE) / (SCALE as int) == SCALE
                + r_fx) by {
                lemma_div_multiples_vanish_fancy(SCALE + r_fx, HALF_SCALE as int, SCALE as int);
            }
            assert(grown == SCALE + r_fx);
        }
    }
}

fn pow_fx(r_fx: u128, n: u64) -> (p: u128)
    requires
        r_fx <= 16_666_667,
        n <= 600,
    ensures
        p == spec_pow_fx(r_fx as int, n as nat),
        SCALE <= p <= GROWTH_CAP,
        n >= 1 ==> p >= SCALE + r_fx,
{
    let mut acc: u128 = SCALE;
    let mut i: u64 = 0;
    while i < n
        invariant
            i <= n,
            n <= 600,
            r_fx <= 16_666_667,
            acc == spec_pow_fx(r_fx as int, i as nat),
        decreases n - i,
    {
        proof {
            lemma_pow_fx_bounds(r_fx as int, i as nat);
            lemma_mul_upper_bound(
                acc as int,
                GROWTH_CAP as int,
                (SCALE + r_fx) as int,
                1_016_666_667,
            );
        }
        let grown: u128 = (acc * (SCALE + r_fx) + HALF_SCALE) / SCALE;
        acc = if grown > GROWTH_CAP {
            GROWTH_CAP
        } else {
            grown
        };
        i = i + 1;
    }
    proof {
        lemma_pow_fx_bounds(r_fx as int, n as nat);
    }
    acc
}

/// The loan terms for the given principal, annual rate (in thousandths of a
/// percent), duration in years, and fixed per-term fee.
///
/// The result is pinned exactly: each field equals the corresponding spec
/// function of the inputs, and the interest paid is always the total cost
/// minus the principal.
pub fn calculate_loan(
    loan_amount: u64,
    interest_rate_milli: u64,
    loan_period_years: u64,
    price_per_term: u64,
) -> (r: LoanResult)
    requires
        loan_amount <= 5_000_000,
        interest_rate_milli <= 20_000,
        loan_period_years <= 50,
        price_per_term <= 100,
    ensures
        r.monthly_cost == spec_monthly_cost(
            loan_amount as int,
            interest_rate_milli as int,
            loan_period_years as int,
            price_per_term as int,
        ),
        r.total_cost == spec_total_cost(
            loan_amount as int,
            interest_rate_milli as int,
            loan_period_years as int,
            price_per_term as int,
        ),
        r.interest_paid == spec_interest_paid(
            loan_amount as int,
            interest_rate_milli as int,
            loan_period_years as int,
            price_per_term as int,
        ),
        r.interest_paid == r.total_cost - loan_amount,
        r.monthly_cost >= 0,
        r.total_cost >= 0,
{
    let n: u64 = loan_period_years * 12;
    if n == 0 {
        return LoanResult {
            total_cost: 0,
            monthly_cost: 0,
            interest_paid: -(loan_amount as i64),
        };
    }
    if interest_rate_milli == 0 {
        proof {
            lemma_div_pos_is_pos(loan_amount + n as int / 2, n as int);
            lemma_div_nonincreasing(loan_amount + n as int / 2, n as int);
            lemma_mul_upper_bound(
                (loan_amount + n as int / 2) / (n as int) + price_per_term,
                5_000_400,
                n as int,
                600,
            );
            lemma_mul_nonnegative(
                (loan_amount + n as int / 2) / (n as int) + price_per_term,
                n as int,
            );
        }
        let monthly: u64 = (loan_amount + n / 2) / n + price_per_term;
        let total: u64 = monthly * n;
        return LoanResult {
            total_cost: total as i64,
            monthly_cost: monthly as i64,
            interest_paid: (total as i64) - (loan_amount as i64),
        };
    }
    let r_fx: u128 = monthly_rate_fx(interest_rate_milli);
    let p: u128 = pow_fx(r_fx, n);
    let d: u128 = p - SCALE;
    proof {
        lemma_mul_upper_bound(r_fx as int, 16_666_667, p as int, GROWTH_CAP as int);
        lemma_div_decreases(d as int, 2);
    }
    let factor: u128 = (r_fx * p + d / 2) / d;
    proof {
        let ri = r_fx as int;
        let pi = p as int;
        let di = d as int;
        assert(ri * pi <= di * pi) by {
            lemma_mul_inequality(ri, di, pi);
        }
        assert((di / 2) / di == 0) by {
            lemma_basic_div(di / 2, di);
        }
        assert((di / 2) / di + pi == (di / 2 + pi * di) / di) by {
            lemma_hoist_over_denominator(di / 2, pi, di as nat);
        }
        assert((ri * pi + di / 2) / di <= (di / 2 + pi * di) / di) by {
            lemma_div_is_ordered(ri * pi + di / 2, di / 2 + pi * di, di);
        }
        assert(factor <= GROWTH_CAP);
        lemma_mul_upper_bound(loan_amount as int, 5_000_000, factor as int, GROWTH_CAP as int);
        lemma_div_is_ordered(
            loan_amount as int * factor as int + HALF_SCALE,
            500_000_000_000_500_000_000,
            SCALE as int,
        );
        lemma_div_pos_is_pos(loan_amount as int * factor as int + HALF_SCALE, SCALE as int);
    }
    let monthly: u128 = ((loan_amount as u128) * factor + HALF_SCALE) / SCALE
        + (price_per_term as u128);
    proof {
        lemma_mul_upper_bound(monthly as int, 500_000_000_600, n as int, 600);
        lemma_mul_nonnegative(monthly as int, n as int);
    }
    let total: u128 = monthly * (n as u128);
    LoanResult {
        total_cost: total as i64,
        monthly_cost: monthly as i64,
        interest_paid: (total as i64) - (loan_amount as i64),
    }
}

/// Recomputing with identical inputs yields an identical result: any two
/// results that meet `calculate_loan`'s contract for the same four inputs
/// are equal in every field.
pub proof fn lemma_recomputation_deterministic(
    r1: LoanResult,
    r2: LoanResult,
    amount: int,
    rate_milli: int,
    years: int,
    fee: int,
)
    requires
        r1.monthly_cost == spec_monthly_cost(amount, rate_milli, years, fee),
        r1.total_cost == spec_total_cost(amount, rate_milli, years, fee),
        r1.interest_paid == spec_interest_paid(amount, rate_milli, years, fee),
        r2.monthly_cost == spec_monthly_cost(amount, rate_milli, years, fee),
        r2.total_cost == spec_total_cost(amount, rate_milli, years, fee),
        r2.interest_paid == spec_interest_paid(amount, rate_milli, years, fee),
    ensures
        r1 == r2,
{
}

/// Holding the rate, the duration and the fee fixed, a larger principal
/// never has a smaller monthly cost or a smaller total cost.
pub proof fn lemma_cost_monotonic_in_amount(
    a1: int,
    a2: int,
    rate_milli: int,
    years: int,
    fee: int,
)
    requires
        0 <= a1 <= a2,
        0 <= rate_milli,
        0 <= years,
        0 <= fee,
    ensures
        spec_monthly_cost(a1, rate_milli, years, fee) <= spec_monthly_cost(
            a2,
            rate_milli,
            years,
            fee,
        ),
        spec_total_cost(a1, rate_milli, years, fee) <= spec_total_cost(a2, rate_milli, years, fee),
{
    let n = years * 12;
    lemma_mul_nonnegative(years, 12);
    if n == 0 {
    } else if rate_milli == 0 {
        lemma_div_is_ordered(a1 + n / 2, a2 + n / 2, n);
        lemma_div_pos_is_pos(a1 + n / 2, n);
        lemma_mul_inequality(
            (a1 + n / 2) / n + fee,
            (a2 + n / 2) / n + fee,
            n,
        );
    } else {
        let r_fx = spec_rate_fx(rate_milli);
        assert(r_fx >= 833) by {
            lemma_mul_inequality(1, rate_milli, SCALE as int);
            lemma_div_is_ordered(1_000_600_000, rate_milli * SCALE + 600_000, 1_200_000);
        }
        lemma_pow_fx_bounds(r_fx, n as nat);
        let p = spec_pow_fx(r_fx, n as nat);
        let d = p - SCALE;
        let factor = (r_fx * p + d / 2) / d;
        assert(d >= 1);
        assert(factor >= 0) by {
            lemma_mul_nonnegative(r_fx, p);
            lemma_div_pos_is_pos(r_fx * p + d / 2, d);
        }
        lemma_mul_inequality(a1, a2, factor);
        lemma_div_is_ordered(a1 * factor + HALF_SCALE, a2 * factor + HALF_SCALE, SCALE as int);
        assert(spec_monthly_cost(a1, rate_milli, years, fee) >= 0) by {
            lemma_mul_nonnegative(a1, factor);
            lemma_div_pos_is_pos(a1 * factor + HALF_SCALE, SCALE as int);
        }
        lemma_mul_inequality(
            spec_monthly_cost(a1, rate_milli, years, fee),
            spec_monthly_cost(a2, rate_milli, years, fee),
            n,
        );
    }
}

} // verus!

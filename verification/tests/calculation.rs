use loan_calc::calculation::calculate_loan;

#[test]
fn default_scenario_exact_figures() {
    let r = calculate_loan(2_000_000, 5_500, 25, 65);
    assert_eq!(r.monthly_cost, 12_347);
    assert_eq!(r.total_cost, 3_704_100);
    assert_eq!(r.interest_paid, 1_704_100);
}

#[test]
fn recomputation_is_deterministic() {
    let first = calculate_loan(2_000_000, 5_500, 25, 65);
    let second = calculate_loan(2_000_000, 5_500, 25, 65);
    assert_eq!(first, second);
}

#[test]
fn interest_is_total_minus_principal() {
    let inputs: [(u64, u64, u64, u64); 6] = [
        (0, 0, 0, 0),
        (1, 1, 1, 1),
        (2_000_000, 5_500, 25, 65),
        (5_000_000, 20_000, 50, 100),
        (123_456, 7_250, 17, 99),
        (4_999_999, 1, 49, 3),
    ];
    for (amount, rate, years, fee) in inputs {
        let r = calculate_loan(amount, rate, years, fee);
        assert_eq!(r.interest_paid, r.total_cost - amount as i64);
    }
}

#[test]
fn zero_duration_policy() {
    let r = calculate_loan(2_000_000, 5_500, 0, 65);
    assert_eq!(r.monthly_cost, 0);
    assert_eq!(r.total_cost, 0);
    assert_eq!(r.interest_paid, -2_000_000);
}

#[test]
fn zero_rate_policy() {
    // The principal spread evenly over the 300 payments (rounded to
    // nearest), plus the 65 fee each month.
    let r = calculate_loan(2_000_000, 0, 25, 65);
    assert_eq!(r.monthly_cost, 6_732);
    assert_eq!(r.total_cost, 2_019_600);
    assert_eq!(r.interest_paid, 19_600);
}

#[test]
fn zero_rate_and_zero_duration() {
    let r = calculate_loan(0, 0, 0, 0);
    assert_eq!(r.monthly_cost, 0);
    assert_eq!(r.total_cost, 0);
    assert_eq!(r.interest_paid, 0);
}

#[test]
fn ten_year_loan_exact_figures() {
    let r = calculate_loan(100_000, 3_000, 10, 0);
    assert_eq!(r.monthly_cost, 966);
    assert_eq!(r.total_cost, 115_920);
    assert_eq!(r.interest_paid, 15_920);
}

#[test]
fn largest_inputs_stay_in_range() {
    let r = calculate_loan(5_000_000, 20_000, 50, 100);
    assert_eq!(r.monthly_cost, 83_437);
    assert_eq!(r.total_cost, 50_062_200);
    assert_eq!(r.interest_paid, 45_062_200);
}

#[test]
fn costs_monotonic_in_amount() {
    let amounts: [u64; 7] = [0, 1, 999, 100_000, 1_000_000, 2_500_000, 5_000_000];
    let mut prev_monthly = i64::MIN;
    let mut prev_total = i64::MIN;
    for amount in amounts {
        let r = calculate_loan(amount, 5_500, 25, 65);
        assert!(r.monthly_cost >= prev_monthly);
        assert!(r.total_cost >= prev_total);
        prev_monthly = r.monthly_cost;
        prev_total = r.total_cost;
    }
}

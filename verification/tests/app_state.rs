use loan_calc::app::LoanCalculator;

#[test]
fn default_state() {
    let c = LoanCalculator::default();
    assert_eq!(c.loan_amount, 2_000_000);
    assert_eq!(c.interest_rate_milli, 5_500);
    assert_eq!(c.loan_period_years, 25);
    assert_eq!(c.term_price, 65);
    assert_eq!(c.formatter.separator, ' ');
    assert_eq!(c.formatter.minus_sign, '-');
}

#[test]
fn new_keeps_in_range_inputs() {
    let c = LoanCalculator::new(1_000, 250, 3, 10);
    assert_eq!(c.loan_amount, 1_000);
    assert_eq!(c.interest_rate_milli, 250);
    assert_eq!(c.loan_period_years, 3);
    assert_eq!(c.term_price, 10);
}

#[test]
fn new_falls_back_to_defaults_when_out_of_range() {
    let defaults = LoanCalculator::default();
    let too_large_amount = LoanCalculator::new(5_000_001, 250, 3, 10);
    assert_eq!(too_large_amount.loan_amount, defaults.loan_amount);
    assert_eq!(too_large_amount.interest_rate_milli, defaults.interest_rate_milli);
    let too_large_rate = LoanCalculator::new(1_000, 20_001, 3, 10);
    assert_eq!(too_large_rate.interest_rate_milli, defaults.interest_rate_milli);
    let too_long = LoanCalculator::new(1_000, 250, 51, 10);
    assert_eq!(too_long.loan_period_years, defaults.loan_period_years);
    let too_expensive = LoanCalculator::new(1_000, 250, 3, 101);
    assert_eq!(too_expensive.term_price, defaults.term_price);
}

#[test]
fn results_match_direct_calculation() {
    let c = LoanCalculator::new(2_000_000, 5_500, 25, 65);
    let r = c.results();
    let direct = loan_calc::calculation::calculate_loan(2_000_000, 5_500, 25, 65);
    assert_eq!(r, direct);
}

#[test]
fn rendered_formats_the_three_figures() {
    let c = LoanCalculator::new(2_000_000, 5_500, 25, 65);
    let (total, monthly, interest) = c.rendered();
    assert_eq!(total, "3 704 100");
    assert_eq!(monthly, "12 347");
    assert_eq!(interest, "1 704 100");
}

#[test]
fn restart_round_trip_reproduces_display() {
    let before = LoanCalculator::new(1_234_567, 4_250, 30, 49);
    let shown_before = before.rendered();
    // Save the four input scalars, as the host does at shutdown...
    let saved = (
        before.loan_amount,
        before.interest_rate_milli,
        before.loan_period_years,
        before.term_price,
    );
    // ...and restore them at the next startup.
    let after = LoanCalculator::new(saved.0, saved.1, saved.2, saved.3);
    let shown_after = after.rendered();
    assert_eq!(shown_before.0, shown_after.0);
    assert_eq!(shown_before.1, shown_after.1);
    assert_eq!(shown_before.2, shown_after.2);
}

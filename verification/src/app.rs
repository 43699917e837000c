//! The calculator's state: the four loan inputs a host UI edits and
//! persists across restarts, and what the UI shows for them each frame.
//!
//! A host drives this state: it restores the four scalars at startup
//! (falling back to the defaults when they are absent or out of range),
//! lets the user adjust them, and asks for the three formatted result
//! strings on every redraw.

use vstd::prelude::*;
use crate::calculation::LoanResult;
use crate::calculation::calculate_loan;
use crate::calculation::spec_interest_paid;
use crate::calculation::spec_monthly_cost;
use crate::calculation::spec_total_cost;
use crate::formatting::Formatter;
use crate::formatting::get_formatter;
use crate::formatting::present_int;
use crate::formatting::spec_format_int;

verus! {

/// The calculator's state: the four loan inputs, and the formatter
/// configuration rebuilt (not persisted) whenever the state is restored.
#[verifier::ext_equal]
pub struct LoanCalculator {
    pub loan_amount: u64,
    pub interest_rate_milli: u64,
    pub loan_period_years: u64,
    pub term_price: u64,
    pub formatter: Formatter,
}

impl LoanCalculator {
    /// The inputs lie within the ranges the UI controls enforce.
    pub open spec fn wf(self) -> bool {
        &&& self.loan_amount <= 5_000_000
        &&& self.interest_rate_milli <= 20_000
        &&& self.loan_period_years <= 50
        &&& self.term_price <= 100
    }

    /// The state every calculator starts from: a two million loan at 5.5 %
    /// over 25 years with a 65 unit monthly fee, and the display
    /// configuration.
    pub open spec fn spec_default() -> LoanCalculator {
        LoanCalculator {
            loan_amount: 2_000_000,
            interest_rate_milli: 5_500,
            loan_period_years: 25,
            term_price: 65,
            formatter: Formatter { separator: ' ', minus_sign: '-' },
        }
    }

    /// The state `new` restores from the four persisted scalars: the
    /// scalars themselves when each lies within its UI range, the default
    /// state otherwise.
    pub open spec fn spec_new(
        loan_amount: u64,
        interest_rate_milli: u64,
        loan_period_years: u64,
        term_price: u64,
    ) -> LoanCalculator {
        let c = LoanCalculator {
            loan_amount: loan_amount,
            interest_rate_milli: interest_rate_milli,
            loan_period_years: loan_period_years,
            term_price: term_price,
            formatter: Formatter { separator: ' ', minus_sign: '-' },
        };
        if c.wf() {
            c
        } else {
            Self::spec_default()
        }
    }

    /// Restore a calculator from the four persisted scalars, falling back
    /// to the default state when any of them lies outside its UI range.
    pub fn new(
        loan_amount: u64,
        interest_rate_milli: u64,
        loan_period_years: u64,
        term_price: u64,
    ) -> (c: Self)
        ensures
            c == Self::spec_new(loan_amount, interest_rate_milli, loan_period_years, term_price),
            c.wf(),
    {
        if loan_amount <= 5_000_000 && interest_rate_milli <= 20_000 && loan_period_years <= 50
            && term_price <= 100 {
            let c = LoanCalculator {
                loan_amount: loan_amount,
                interest_rate_milli: interest_rate_milli,
                loan_period_years: loan_period_years,
                term_price: term_price,
                formatter: get_formatter(),
            };
            assert(c =~= Self::spec_new(
                loan_amount,
                interest_rate_milli,
                loan_period_years,
                term_price,
            ));
            c
        } else {
            LoanCalculator::default()
        }
    }

    /// The loan terms for the current inputs.
    pub fn results(&self) -> (r: LoanResult)
        requires
            self.wf(),
        ensures
            r.monthly_cost == spec_monthly_cost(
                self.loan_amount as int,
                self.interest_rate_milli as int,
                self.loan_period_years as int,
                self.term_price as int,
            ),
            r.total_cost == spec_total_cost(
                self.loan_amount as int,
                self.interest_rate_milli as int,
                self.loan_period_years as int,
                self.term_price as int,
            ),
            r.interest_paid == spec_interest_paid(
                self.loan_amount as int,
                self.interest_rate_milli as int,
                self.loan_period_years as int,
                self.term_price as int,
            ),
            r.interest_paid == r.total_cost - self.loan_amount,
    {
        calculate_loan(
            self.loan_amount,
            self.interest_rate_milli,
            self.loan_period_years,
            self.term_price,
        )
    }

    /// The three displayed strings, in display order: total cost, monthly
    /// cost, interest paid, each formatted with the calculator's formatter.
    pub fn rendered(&self) -> (r: (String, String, String))
        requires
            self.wf(),
        ensures
            r.0@ == spec_format_int(
                spec_total_cost(
                    self.loan_amount as int,
                    self.interest_rate_milli as int,
                    self.loan_period_years as int,
                    self.term_price as int,
                ),
                self.formatter.separator,
                self.formatter.minus_sign,
            ),
            r.1@ == spec_format_int(
                spec_monthly_cost(
                    self.loan_amount as int,
                    self.interest_rate_milli as int,
                    self.loan_period_years as int,
                    self.term_price as int,
                ),
                self.formatter.separator,
                self.formatter.minus_sign,
            ),
            r.2@ == spec_format_int(
                spec_interest_paid(
                    self.loan_amount as int,
                    self.interest_rate_milli as int,
                    self.loan_period_years as int,
                    self.term_price as int,
                ),
                self.formatter.separator,
                self.formatter.minus_sign,
            ),
    {
        let terms = self.results();
        let total = present_int(terms.total_cost, &self.formatter);
        let monthly = present_int(terms.monthly_cost, &self.formatter);
        let interest = present_int(terms.interest_paid, &self.formatter);
        (total, monthly, interest)
    }
}

impl Default for LoanCalculator {
    /// The default loan: two million at 5.5 % over 25 years, a 65 unit fee.
    fn default() -> (c: Self)
        ensures
            c == Self::spec_default(),
            c.wf(),
    {
        let c = LoanCalculator {
            loan_amount: 2_000_000,
            interest_rate_milli: 5_500,
            loan_period_years: 25,
            term_price: 65,
            formatter: get_formatter(),
        };
        assert(c =~= Self::spec_default());
        c
    }
}

/// Restart round trip: a well-formed calculator saved as its four input
/// scalars and restored through `new` is reproduced exactly; with it, every
/// displayed figure is reproduced exactly as well.
pub proof fn lemma_restart_round_trip(c: LoanCalculator)
    requires
        c.wf(),
        c.formatter == (Formatter { separator: ' ', minus_sign: '-' }),
    ensures
        LoanCalculator::spec_new(
            c.loan_amount,
            c.interest_rate_milli,
            c.loan_period_years,
            c.term_price,
        ) == c,
{
    assert(LoanCalculator::spec_new(
        c.loan_amount,
        c.interest_rate_milli,
        c.loan_period_years,
        c.term_price,
    ) =~= c);
}

} // verus!

//! A loan repayment calculator: an amortizing-loan annuity computation in
//! fixed-point integer arithmetic, digit-grouped number formatting for
//! display, and the calculator state that a host UI drives.

pub mod app;
pub mod calculation;
pub mod formatting;

//! Flat-rate installment loan figures, computed exactly in integer arithmetic.

pub mod amount;
pub mod laws;
pub mod loan;
pub mod text;

pub use amount::{Amount, Ratio};
pub use loan::{CarLoan, LoanError};

//! A fixed-rate installment loan with flat (simple) interest on the original principal.
//!
//! The principal is held in cents and the annual rate in parts per million, so
//! every figure is an exact fraction of a cent.

use vstd::prelude::*;
use crate::amount::{Amount, Ratio};
use crate::text::{decimal, fixed_point, push_decimal, push_fixed_point};
use vstd::string::StringExecFns;

verus! {

/// Parts per million: the scale of the annual rate.
pub const RATE_SCALE: u128 = 1_000_000;

/// Installments in one year.
pub const MONTHS_PER_YEAR: u64 = 12;

/// Why a figure of a loan cannot be computed.
#[derive(Clone, Copy, Debug, PartialEq, Eq, Structural)]
pub enum LoanError {
    /// The term is zero years, so there are no installments to spread the principal over.
    InvalidTerm,
}

/// A loan: principal, term in whole years, and a flat annual interest rate.
#[derive(Clone, Copy, Debug, PartialEq, Eq, Structural)]
pub struct CarLoan {
    /// Amount borrowed, in cents.
    pub money_cents: u64,
    /// Term of the loan, in years.
    pub year: u32,
    /// Annual interest rate, in parts per million of the principal (0.023 is 23_000).
    pub rate_ppm: u32,
}

impl CarLoan {
    /// The principal, in cents.
    pub open spec fn principal(self) -> Ratio {
        Ratio::whole(self.money_cents as int)
    }

    /// The annual rate as a fraction.
    pub open spec fn annual_rate(self) -> Ratio {
        Ratio { num: self.rate_ppm as int, den: RATE_SCALE as int }
    }

    /// Number of monthly installments.
    pub open spec fn month_count(self) -> int {
        self.year * MONTHS_PER_YEAR
    }

    /// Principal repaid each month: principal over the number of installments.
    pub open spec fn principal_per_month_value(self) -> Ratio {
        Ratio { num: self.money_cents as int, den: self.month_count() }
    }

    /// Interest charged each year: principal times rate.
    pub open spec fn interest_per_year_value(self) -> Ratio {
        Ratio { num: self.money_cents * self.rate_ppm, den: RATE_SCALE as int }
    }

    /// Interest charged each month: a twelfth of the yearly interest.
    pub open spec fn interest_per_month_value(self) -> Ratio {
        Ratio {
            num: self.money_cents * self.rate_ppm,
            den: RATE_SCALE * MONTHS_PER_YEAR,
        }
    }

    /// Interest over the whole term: yearly interest times the years.
    pub open spec fn total_interest_value(self) -> Ratio {
        Ratio { num: self.money_cents * self.rate_ppm * self.year, den: RATE_SCALE as int }
    }

    /// The monthly installment: principal part plus interest part, over a common denominator.
    pub open spec fn total_money_per_month_value(self) -> Ratio {
        Ratio {
            num: self.money_cents * RATE_SCALE + self.money_cents * self.rate_ppm * self.year,
            den: RATE_SCALE * self.month_count(),
        }
    }

    /// The readable rendering of the three inputs: the principal in currency units
    /// with two decimals, the term in years, and the rate as a fraction with six decimals.
    pub open spec fn description(self) -> Seq<char> {
        "money = "@ + fixed_point(self.money_cents as nat, 100, 2) + ", year = "@ + decimal(
            self.year as nat,
        ) + ", interest_rate_per_year = "@ + fixed_point(self.rate_ppm as nat, 1_000_000, 6)
    }

    /// Makes a loan from its three inputs, accepted as they are.
    pub fn new(money_cents: u64, year: u32, rate_ppm: u32) -> (r: CarLoan)
        ensures
            r.money_cents == money_cents,
            r.year == year,
            r.rate_ppm == rate_ppm,
    {
        CarLoan { money_cents, year, rate_ppm }
    }

    /// Total number of monthly installments.
    pub fn month(&self) -> (r: u64)
        ensures
            r == self.month_count(),
    {
        self.year as u64 * MONTHS_PER_YEAR
    }

    /// Principal repaid each month, besides the interest.
    pub fn principal_per_month(&self) -> (r: Result<Amount, LoanError>)
        ensures
            self.year == 0 <==> r == Err::<Amount, LoanError>(LoanError::InvalidTerm),
            r matches Ok(a) ==> a.wf() && a@ == self.principal_per_month_value(),
    {
        if self.year == 0 {
            return Err(LoanError::InvalidTerm);
        }
        Ok(Amount { numer: self.money_cents as u128, denom: self.month() as u128 })
    }

    /// Interest charged each month.
    pub fn interest_per_month(&self) -> (r: Amount)
        ensures
            r.wf(),
            r@ == self.interest_per_month_value(),
    {
        let y = self.interest_per_year();
        Amount { numer: y.numer, denom: y.denom * MONTHS_PER_YEAR as u128 }
    }

    /// Interest charged each year, on the original principal.
    pub fn interest_per_year(&self) -> (r: Amount)
        ensures
            r.wf(),
            r@ == self.interest_per_year_value(),
    {
        proof {
            lemma_products_fit(self.money_cents, self.rate_ppm, self.year);
        }
        Amount { numer: self.money_cents as u128 * self.rate_ppm as u128, denom: RATE_SCALE }
    }

    /// Interest over the whole term of the loan.
    pub fn total_interest(&self) -> (r: Amount)
        ensures
            r.wf(),
            r@ == self.total_interest_value(),
    {
        proof {
            lemma_products_fit(self.money_cents, self.rate_ppm, self.year);
        }
        let y = self.interest_per_year();
        Amount { numer: y.numer * self.year as u128, denom: y.denom }
    }

    /// The monthly installment: principal part plus interest part.
    pub fn total_money_per_month(&self) -> (r: Result<Amount, LoanError>)
        ensures
            self.year == 0 <==> r == Err::<Amount, LoanError>(LoanError::InvalidTerm),
            r matches Ok(a) ==> a.wf() && a@ == self.total_money_per_month_value(),
    {
        if self.year == 0 {
            return Err(LoanError::InvalidTerm);
        }
        proof {
            lemma_products_fit(self.money_cents, self.rate_ppm, self.year);
        }
        let total = self.total_interest();
        let numer = self.money_cents as u128 * RATE_SCALE + total.numer;
        let denom = RATE_SCALE * self.month() as u128;
        Ok(Amount { numer, denom })
    }

    /// Renders the three inputs as text, for diagnostics.
    pub fn describe(&self) -> (r: String)
        ensures
            r@ == self.description(),
    {
        let mut s = String::from_str("money = ");
        push_fixed_point(&mut s, self.money_cents, 100, 2);
        s.append(", year = ");
        push_decimal(&mut s, self.year as u64);
        s.append(", interest_rate_per_year = ");
        push_fixed_point(&mut s, self.rate_ppm as u64, 1_000_000, 6);
        assert(s@ =~= self.description());
        s
    }
}

/// Bounds on the products that the figures of a loan hold in `u128`.
proof fn lemma_products_fit(p: u64, r: u32, t: u32)
    ensures
        p * r <= 0xffff_ffff_ffff_ffff * 0xffff_ffff,
        p * r * t <= 0xffff_ffff_ffff_ffff * 0xffff_ffff * 0xffff_ffff,
        p * RATE_SCALE + p * r * t <= u128::MAX,
{
    assert(p * r <= 0xffff_ffff_ffff_ffff * 0xffff_ffff) by (nonlinear_arith)
        requires
            p <= 0xffff_ffff_ffff_ffff,
            r <= 0xffff_ffff,
    ;
    assert(p * r * t <= 0xffff_ffff_ffff_ffff * 0xffff_ffff * 0xffff_ffff) by (nonlinear_arith)
        requires
            p * r <= 0xffff_ffff_ffff_ffff * 0xffff_ffff,
            0 <= p * r,
            t <= 0xffff_ffff,
    ;
    assert(p * RATE_SCALE <= 0xffff_ffff_ffff_ffff * 1_000_000) by (nonlinear_arith)
        requires
            p <= 0xffff_ffff_ffff_ffff,
    ;
}

} // verus!

//! Laws that relate the figures of a loan to one another.

use vstd::prelude::*;
use crate::amount::Ratio;
use crate::loan::{CarLoan, MONTHS_PER_YEAR, RATE_SCALE};

verus! {

/// For a term of at least one year, the figures agree with their defining formulas:
/// the installments number twelve per year, the monthly principal repaid over all
/// installments is the whole principal, the yearly interest is principal times rate,
/// the monthly interest is a twelfth of it, the total interest is the yearly interest
/// times the years, and the installment is monthly principal plus monthly interest.
pub proof fn lemma_figures_consistent(loan: CarLoan)
    requires
        loan.year >= 1,
    ensures
        loan.month_count() == loan.year * 12,
        loan.principal_per_month_value().den > 0,
        loan.principal_per_month_value().times(loan.month_count()).same_as(loan.principal()),
        loan.interest_per_year_value().same_as(loan.principal().mul(loan.annual_rate())),
        loan.interest_per_month_value().same_as(loan.interest_per_year_value().divided_by(12)),
        loan.total_interest_value().same_as(loan.interest_per_year_value().times(loan.year as int)),
        loan.total_money_per_month_value().den > 0,
        loan.total_money_per_month_value().same_as(
            loan.principal_per_month_value().plus(loan.interest_per_month_value()),
        ),
{
    let p = loan.money_cents as int;
    let r = loan.rate_ppm as int;
    let t = loan.year as int;
    let s = RATE_SCALE as int;
    let m = MONTHS_PER_YEAR as int;
    assert(p * (t * m) * 1 == p * (t * m));
    assert(p * r * 1 == p * r) by (nonlinear_arith);
    assert(p * r * t == (p * r) * t) by (nonlinear_arith);
    assert(t * m > 0 && s * (t * m) > 0) by (nonlinear_arith)
        requires
            t >= 1,
            m == 12,
            s == 1_000_000,
    ;
    let a = p * s;
    let b = p * r * t;
    let d = s * (t * m);
    assert(p * (s * m) == a * m) by (nonlinear_arith)
        requires
            a == p * s,
    ;
    assert((p * r) * (t * m) == b * m) by (nonlinear_arith)
        requires
            b == p * r * t,
    ;
    assert((t * m) * (s * m) == d * m) by (nonlinear_arith)
        requires
            d == s * (t * m),
    ;
    assert(a * m + b * m == (a + b) * m) by (nonlinear_arith);
    assert((a + b) * (d * m) == ((a + b) * m) * d) by (nonlinear_arith);
}

/// The figures depend on the principal, term and rate alone: two records with the
/// same inputs, or one record asked twice, give the same figures.
pub proof fn lemma_figures_depend_on_inputs_only(a: CarLoan, b: CarLoan)
    requires
        a.money_cents == b.money_cents,
        a.year == b.year,
        a.rate_ppm == b.rate_ppm,
    ensures
        a.month_count() == b.month_count(),
        a.principal_per_month_value() == b.principal_per_month_value(),
        a.interest_per_year_value() == b.interest_per_year_value(),
        a.interest_per_month_value() == b.interest_per_month_value(),
        a.total_interest_value() == b.total_interest_value(),
        a.total_money_per_month_value() == b.total_money_per_month_value(),
{
}

/// Doubling the principal, with term and rate unchanged, doubles every money figure.
pub proof fn lemma_doubling_principal(a: CarLoan, doubled: CarLoan)
    requires
        doubled.money_cents == 2 * a.money_cents,
        doubled.year == a.year,
        doubled.rate_ppm == a.rate_ppm,
    ensures
        doubled.interest_per_year_value().same_as(a.interest_per_year_value().times(2)),
        doubled.interest_per_month_value().same_as(a.interest_per_month_value().times(2)),
        doubled.total_interest_value().same_as(a.total_interest_value().times(2)),
        a.year >= 1 ==> doubled.principal_per_month_value().same_as(
            a.principal_per_month_value().times(2),
        ),
        a.year >= 1 ==> doubled.total_money_per_month_value().same_as(
            a.total_money_per_month_value().times(2),
        ),
{
    let p = a.money_cents as int;
    let r = a.rate_ppm as int;
    let t = a.year as int;
    let s = RATE_SCALE as int;
    assert((2 * p) * r == (p * r) * 2) by (nonlinear_arith);
    assert((2 * p) * r * t == (p * r * t) * 2) by (nonlinear_arith);
    assert((2 * p) * s + (2 * p) * r * t == (p * s + p * r * t) * 2) by (nonlinear_arith);
}

} // verus!

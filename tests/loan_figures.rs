use car_loan::amount::Amount;
use car_loan::loan::{CarLoan, LoanError};

fn approx(a: Amount) -> f64 {
    a.numer as f64 / a.denom as f64
}

fn close(x: f64, y: f64) -> bool {
    (x - y).abs() < 1e-6
}

#[test]
fn it_works() {
    let car_loan = CarLoan::new(10_000_000, 3, 23_000);
    println!("months = {}", car_loan.month());
    println!("principal per month = {:?}", car_loan.principal_per_month());
    println!("interest per month = {:?}", car_loan.interest_per_month());
    println!("interest per year = {:?}", car_loan.interest_per_year());
    println!("total interest = {:?}", car_loan.total_interest());
    println!("payment per month = {:?}", car_loan.total_money_per_month());
}

#[test]
fn three_year_loan_figures() {
    let loan = CarLoan::new(10_000_000, 3, 23_000);
    assert_eq!(loan.month(), 36);
    let year = loan.interest_per_year();
    assert_eq!(year.numer % year.denom, 0);
    assert_eq!(year.whole_cents(), 230_000);
    let total = loan.total_interest();
    assert_eq!(total.numer % total.denom, 0);
    assert_eq!(total.whole_cents(), 690_000);
    let month = loan.interest_per_month();
    assert!(close(approx(month), 19_166.666_666_666_668));
    assert_eq!(month.rounded_cents(), 19_167);
    let principal = loan.principal_per_month().unwrap();
    assert!(close(approx(principal), 277_777.777_777_777_8));
    assert_eq!(principal.rounded_cents(), 277_778);
    let payment = loan.total_money_per_month().unwrap();
    assert!(close(approx(payment), 296_944.444_444_444_4));
    assert_eq!(payment.whole_cents(), 296_944);
    assert_eq!(payment.rounded_cents(), 296_944);
}

#[test]
fn exact_representation() {
    let loan = CarLoan::new(10_000_000, 3, 23_000);
    assert_eq!(loan.interest_per_year(), Amount { numer: 230_000_000_000, denom: 1_000_000 });
    assert_eq!(loan.interest_per_month(), Amount { numer: 230_000_000_000, denom: 12_000_000 });
    assert_eq!(loan.total_interest(), Amount { numer: 690_000_000_000, denom: 1_000_000 });
    assert_eq!(loan.principal_per_month(), Ok(Amount { numer: 10_000_000, denom: 36 }));
    assert_eq!(
        loan.total_money_per_month(),
        Ok(Amount { numer: 10_690_000_000_000, denom: 36_000_000 })
    );
}

#[test]
fn monthly_principal_repays_the_principal() {
    let loan = CarLoan::new(1_234_567, 7, 41_500);
    let p = loan.principal_per_month().unwrap();
    assert_eq!(p.numer * loan.month() as u128, 1_234_567 * p.denom);
}

#[test]
fn payment_is_principal_plus_interest() {
    let loan = CarLoan::new(987_654_321, 5, 65_000);
    let p = loan.principal_per_month().unwrap();
    let i = loan.interest_per_month();
    let pay = loan.total_money_per_month().unwrap();
    assert_eq!(pay.numer * p.denom * i.denom, (p.numer * i.denom + i.numer * p.denom) * pay.denom);
    let y = loan.interest_per_year();
    assert_eq!(i.numer * 12 * y.denom, y.numer * i.denom);
    let t = loan.total_interest();
    assert_eq!(t.numer * y.denom, y.numer * 5 * t.denom);
}

#[test]
fn asking_twice_gives_the_same_figures() {
    let loan = CarLoan::new(4_200_000, 4, 31_000);
    assert_eq!(loan.month(), loan.month());
    assert_eq!(loan.principal_per_month(), loan.principal_per_month());
    assert_eq!(loan.interest_per_month(), loan.interest_per_month());
    assert_eq!(loan.interest_per_year(), loan.interest_per_year());
    assert_eq!(loan.total_interest(), loan.total_interest());
    assert_eq!(loan.total_money_per_month(), loan.total_money_per_month());
    assert_eq!(loan.describe(), loan.describe());
}

#[test]
fn doubling_principal_doubles_money_figures() {
    let a = CarLoan::new(3_000_000, 2, 50_000);
    let b = CarLoan::new(6_000_000, 2, 50_000);
    let same = |x: Amount, y: Amount| x.numer * 2 * y.denom == y.numer * x.denom;
    assert!(same(a.interest_per_year(), b.interest_per_year()));
    assert!(same(a.interest_per_month(), b.interest_per_month()));
    assert!(same(a.total_interest(), b.total_interest()));
    assert!(same(a.principal_per_month().unwrap(), b.principal_per_month().unwrap()));
    assert!(same(a.total_money_per_month().unwrap(), b.total_money_per_month().unwrap()));
}

#[test]
fn zero_term_has_no_monthly_principal() {
    let loan = CarLoan::new(10_000_000, 0, 23_000);
    assert_eq!(loan.month(), 0);
    assert_eq!(loan.principal_per_month(), Err(LoanError::InvalidTerm));
    assert_eq!(loan.total_money_per_month(), Err(LoanError::InvalidTerm));
    assert_eq!(loan.total_interest().whole_cents(), 0);
    assert_eq!(loan.interest_per_year().whole_cents(), 230_000);
}

#[test]
fn zero_principal_and_zero_rate() {
    let loan = CarLoan::new(0, 10, 0);
    assert_eq!(loan.month(), 120);
    assert_eq!(loan.principal_per_month().unwrap().whole_cents(), 0);
    assert_eq!(loan.interest_per_year().whole_cents(), 0);
    assert_eq!(loan.total_money_per_month().unwrap().whole_cents(), 0);
}

#[test]
fn largest_inputs_do_not_overflow() {
    let loan = CarLoan::new(u64::MAX, u32::MAX, u32::MAX);
    assert_eq!(loan.month(), u32::MAX as u64 * 12);
    let total = loan.total_interest();
    assert_eq!(total.numer, u64::MAX as u128 * u32::MAX as u128 * u32::MAX as u128);
    let pay = loan.total_money_per_month().unwrap();
    assert_eq!(pay.denom, 12_000_000 * u32::MAX as u128);
    assert!(pay.whole_cents() > 0);
}

#[test]
fn rounding_to_cents() {
    assert_eq!(Amount { numer: 5, denom: 2 }.rounded_cents(), 3);
    assert_eq!(Amount { numer: 7, denom: 3 }.rounded_cents(), 2);
    assert_eq!(Amount { numer: 8, denom: 3 }.rounded_cents(), 3);
    assert_eq!(Amount { numer: 8, denom: 3 }.whole_cents(), 2);
    assert_eq!(Amount { numer: u128::MAX, denom: 1 }.rounded_cents(), u128::MAX);
    assert_eq!(Amount { numer: u128::MAX, denom: 2 }.rounded_cents(), u128::MAX / 2 + 1);
}

#[test]
fn describe_renders_inputs() {
    let loan = CarLoan::new(10_000_000, 3, 23_000);
    assert_eq!(
        loan.describe(),
        "money = 100000.00, year = 3, interest_rate_per_year = 0.023000"
    );
    let odd = CarLoan::new(5, 0, 1_250_000);
    assert_eq!(odd.describe(), "money = 0.05, year = 0, interest_rate_per_year = 1.250000");
}

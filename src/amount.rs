//! Exact money amounts: a fraction of a cent, held as numerator over denominator.

use vstd::prelude::*;

verus! {

/// A rational number, the mathematical value behind an [`Amount`].
pub ghost struct Ratio {
    pub num: int,
    pub den: int,
}

impl Ratio {
    /// The whole number `n`.
    pub open spec fn whole(n: int) -> Ratio {
        Ratio { num: n, den: 1 }
    }

    /// Both ratios denote the same rational number.
    pub open spec fn same_as(self, other: Ratio) -> bool {
        self.num * other.den == other.num * self.den
    }

    pub open spec fn plus(self, other: Ratio) -> Ratio {
        Ratio { num: self.num * other.den + other.num * self.den, den: self.den * other.den }
    }

    pub open spec fn mul(self, other: Ratio) -> Ratio {
        Ratio { num: self.num * other.num, den: self.den * other.den }
    }

    pub open spec fn times(self, k: int) -> Ratio {
        Ratio { num: self.num * k, den: self.den }
    }

    pub open spec fn divided_by(self, k: int) -> Ratio {
        Ratio { num: self.num, den: self.den * k }
    }
}

/// An exact amount of money: `numer / denom` cents.
#[derive(Clone, Copy, Debug, PartialEq, Eq, Structural)]
pub struct Amount {
    pub numer: u128,
    pub denom: u128,
}

impl View for Amount {
    type V = Ratio;

    open spec fn view(&self) -> Ratio {
        Ratio { num: self.numer as int, den: self.denom as int }
    }
}

impl Amount {
    /// A well-formed amount has a positive denominator.
    pub open spec fn wf(&self) -> bool {
        self.denom > 0
    }

    /// The amount rounded down to whole cents.
    pub fn whole_cents(&self) -> (r: u128)
        requires
            self.wf(),
        ensures
            r == self.numer / self.denom,
    {
        self.numer / self.denom
    }

    /// The amount rounded to the nearest cent, halves rounded up.
    pub fn rounded_cents(&self) -> (r: u128)
        requires
            self.wf(),
        ensures
            r == (2 * self.numer + self.denom) / (2 * self.denom),
    {
        let q: u128 = self.numer / self.denom;
        let rem: u128 = self.numer % self.denom;
        let ghost n = self.numer as int;
        let ghost d = self.denom as int;
        proof {
            vstd::arithmetic::div_mod::lemma_fundamental_div_mod(n, d);
            assert(n == d * q + rem);
        }
        if rem >= self.denom - rem {
            proof {
                assert(2 * n + d == (q + 1) * (2 * d) + (2 * rem - d)) by (nonlinear_arith)
                    requires
                        n == d * q + rem,
                ;
                vstd::arithmetic::div_mod::lemma_fundamental_div_mod_converse(
                    2 * n + d,
                    2 * d,
                    q + 1,
                    2 * rem - d,
                );
                assert(q + 1 <= u128::MAX) by (nonlinear_arith)
                    requires
                        n == d * q + rem,
                        0 < rem < d,
                        n <= u128::MAX,
                ;
            }
            q + 1
        } else {
            proof {
                assert(2 * n + d == q * (2 * d) + (2 * rem + d)) by (nonlinear_arith)
                    requires
                        n == d * q + rem,
                ;
                vstd::arithmetic::div_mod::lemma_fundamental_div_mod_converse(
                    2 * n + d,
                    2 * d,
                    q as int,
                    2 * rem + d,
                );
            }
            q
        }
    }
}

} // verus!

//! Exact amounts: a whole numerator over a positive whole denominator.

use vstd::prelude::*;

verus! {

/// An exact amount, `numerador / denominador`, in units of currency.
///
/// The fraction is not reduced: each operation of the library documents the
/// denominator it returns, so that equal results are equal field by field.
#[derive(Clone, Copy, Debug, PartialEq, Eq)]
pub struct Quantia {
    pub numerador: i128,
    pub denominador: u64,
}

impl Quantia {
    /// A denominator of zero stands for no number.
    pub open spec fn bem_formada(&self) -> bool {
        self.denominador > 0
    }
}

impl View for Quantia {
    type V = real;

    /// The real number that the fraction stands for.
    open spec fn view(&self) -> real {
        self.numerador as real / self.denominador as real
    }
}

/// `n` hundredths, as a real number: `centesimos(257129)` is 2571.29.
#[verifier::inline]
pub open spec fn centesimos(n: int) -> real {
    n as real / 100real
}

/// `n` thousandths, as a real number: `milesimos(75)` is 0.075.
#[verifier::inline]
pub open spec fn milesimos(n: int) -> real {
    n as real / 1000real
}

/// Two well-formed amounts over the same denominator that stand for the same
/// number are the same amount. Every operation fixes the denominator and the
/// value of what it returns by the record and its arguments alone, so an
/// operation repeated on an unchanged record returns an identical result.
pub proof fn lema_representacao_unica(a: Quantia, b: Quantia)
    requires
        a.bem_formada(),
        b.bem_formada(),
        a.denominador == b.denominador,
        a@ == b@,
    ensures
        a == b,
{
    let d = a.denominador as real;
    let x = a.numerador as real;
    let y = b.numerador as real;
    assert(x == y) by (nonlinear_arith)
        requires
            d > 0real,
            x / d == y / d,
    ;
}

} // verus!

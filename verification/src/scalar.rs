//! The numbers that a state is made of.

use vstd::prelude::*;

verus! {

/// A number type with the arithmetic that the stepping schemes use. Each
/// operation is a function of its operands: the same operands give the same
/// result. Nothing else is asked of it; in particular the operations need not
/// be exact.
pub trait Scalar: Copy {
    /// The sum of two numbers.
    spec fn spec_sum(self, rhs: Self) -> Self;

    /// The difference of two numbers.
    spec fn spec_diff(self, rhs: Self) -> Self;

    /// The product of two numbers.
    spec fn spec_prod(self, rhs: Self) -> Self;

    /// The quotient of two numbers.
    spec fn spec_quot(self, rhs: Self) -> Self;

    /// The number that stands for a count.
    spec fn spec_of_count(n: usize) -> Self;

    /// Whether the number is finite.
    spec fn spec_is_finite(self) -> bool;

    /// Whether the number is at least `rhs`.
    spec fn spec_reaches(self, rhs: Self) -> bool;

    /// Whether the number is smaller than `rhs`.
    spec fn spec_below(self, rhs: Self) -> bool;

    /// Whether the number is larger than `rhs`.
    spec fn spec_exceeds(self, rhs: Self) -> bool;

    /// The number with its sign turned.
    spec fn spec_negated(self) -> Self;

    /// The sum of two numbers.
    fn sum(self, rhs: Self) -> (r: Self)
        ensures
            r == self.spec_sum(rhs),
    ;

    /// The difference of two numbers.
    fn diff(self, rhs: Self) -> (r: Self)
        ensures
            r == self.spec_diff(rhs),
    ;

    /// The product of two numbers.
    fn prod(self, rhs: Self) -> (r: Self)
        ensures
            r == self.spec_prod(rhs),
    ;

    /// The quotient of two numbers.
    fn quot(self, rhs: Self) -> (r: Self)
        ensures
            r == self.spec_quot(rhs),
    ;

    /// The number that stands for a count.
    fn of_count(n: usize) -> (r: Self)
        ensures
            r == Self::spec_of_count(n),
    ;

    /// Whether the number is finite.
    fn is_finite(self) -> (b: bool)
        ensures
            b == self.spec_is_finite(),
    ;

    /// Whether the number is at least `rhs`.
    fn reaches(self, rhs: Self) -> (b: bool)
        ensures
            b == self.spec_reaches(rhs),
    ;

    /// Whether the number is smaller than `rhs`.
    fn below(self, rhs: Self) -> (b: bool)
        ensures
            b == self.spec_below(rhs),
    ;

    /// Whether the number is larger than `rhs`.
    fn exceeds(self, rhs: Self) -> (b: bool)
        ensures
            b == self.spec_exceeds(rhs),
    ;

    /// The number with its sign turned.
    fn negated(self) -> (r: Self)
        ensures
            r == self.spec_negated(),
    ;
}

/// A number type with the functions of analysis that the norms and the
/// update rules use. As with the arithmetic, each is a function of its
/// operands.
pub trait Analytic: Scalar {
    /// The square root.
    spec fn spec_sqrt(self) -> Self;

    /// The magnitude.
    spec fn spec_abs(self) -> Self;

    /// The number raised to the power `exponent`.
    spec fn spec_powf(self, exponent: Self) -> Self;

    /// The distance from one to the next larger number of the type.
    spec fn spec_epsilon() -> Self;

    /// The square root.
    fn sqrt(self) -> (r: Self)
        ensures
            r == self.spec_sqrt(),
    ;

    /// The magnitude.
    fn abs(self) -> (r: Self)
        ensures
            r == self.spec_abs(),
    ;

    /// The number raised to the power `exponent`.
    fn powf(self, exponent: Self) -> (r: Self)
        ensures
            r == self.spec_powf(exponent),
    ;

    /// The distance from one to the next larger number of the type.
    fn epsilon() -> (r: Self)
        ensures
            r == Self::spec_epsilon(),
    ;
}

/// `y + a * x`, entry by entry. The result has the entries of `y`; an entry
/// for which `x` has none is kept as it is.
pub open spec fn spec_axpy<T: Scalar>(y: Seq<T>, a: T, x: Seq<T>) -> Seq<T> {
    Seq::new(
        y.len(),
        |i: int|
            if i < x.len() {
                y[i].spec_sum(a.spec_prod(x[i]))
            } else {
                y[i]
            },
    )
}

/// `y + a * x`, entry by entry.
pub fn axpy<T: Scalar>(y: &[T], a: T, x: &[T]) -> (r: Vec<T>)
    ensures
        r@ == spec_axpy(y@, a, x@),
{
    let mut r: Vec<T> = Vec::new();
    let mut i: usize = 0;
    while i < y.len()
        invariant
            i <= y@.len(),
            r@.len() == i,
            forall|j: int| 0 <= j < i ==> r@[j] == spec_axpy(y@, a, x@)[j],
        decreases y@.len() - i,
    {
        let e = if i < x.len() {
            y[i].sum(a.prod(x[i]))
        } else {
            y[i]
        };
        r.push(e);
        i = i + 1;
    }
    assert(r@ =~= spec_axpy(y@, a, x@));
    r
}

/// One column step of an extrapolation table: `fine + (fine - coarse) / d`,
/// entry by entry. The result has the entries of `fine`; an entry for which
/// `coarse` has none is kept as it is.
pub open spec fn spec_refine<T: Scalar>(fine: Seq<T>, coarse: Seq<T>, d: T) -> Seq<T> {
    Seq::new(
        fine.len(),
        |i: int|
            if i < coarse.len() {
                fine[i].spec_sum(fine[i].spec_diff(coarse[i]).spec_quot(d))
            } else {
                fine[i]
            },
    )
}

/// One column step of an extrapolation table, entry by entry.
pub fn refine<T: Scalar>(fine: &[T], coarse: &[T], d: T) -> (r: Vec<T>)
    ensures
        r@ == spec_refine(fine@, coarse@, d),
{
    let mut r: Vec<T> = Vec::new();
    let mut i: usize = 0;
    while i < fine.len()
        invariant
            i <= fine@.len(),
            r@.len() == i,
            forall|j: int| 0 <= j < i ==> r@[j] == spec_refine(fine@, coarse@, d)[j],
        decreases fine@.len() - i,
    {
        let e = if i < coarse.len() {
            fine[i].sum(fine[i].diff(coarse[i]).quot(d))
        } else {
            fine[i]
        };
        r.push(e);
        i = i + 1;
    }
    assert(r@ =~= spec_refine(fine@, coarse@, d));
    r
}

/// Whether every entry is finite.
pub open spec fn spec_all_finite<T: Scalar>(y: Seq<T>) -> bool {
    forall|i: int| 0 <= i < y.len() ==> (#[trigger] y[i]).spec_is_finite()
}

/// Whether every entry is finite.
pub fn all_finite<T: Scalar>(y: &[T]) -> (b: bool)
    ensures
        b == spec_all_finite(y@),
{
    let mut i: usize = 0;
    while i < y.len()
        invariant
            i <= y@.len(),
            forall|j: int| 0 <= j < i ==> (#[trigger] y@[j]).spec_is_finite(),
        decreases y@.len() - i,
    {
        if !y[i].is_finite() {
            return false;
        }
        i = i + 1;
    }
    true
}

} // verus!

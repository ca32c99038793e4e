//! The system to integrate: two right-hand sides, one for each partition of
//! the state, each of which sees the whole state.

use vstd::prelude::*;
use crate::scalar::Scalar;

verus! {

/// The entries of one partition as the contracts see them.
pub type Entries<T> = Seq<T>;

/// A dynamical system whose state is split into a slow and a fast partition.
///
/// Both right-hand sides are functions of the time and the two partitions:
/// they have no effect and give the same derivative for the same arguments,
/// however often they are called.
pub trait MultirateSystem<T: Scalar> {
    /// Entries of the slow partition.
    spec fn spec_slow_dim(&self) -> usize;

    /// Entries of the fast partition.
    spec fn spec_fast_dim(&self) -> usize;

    /// Derivative of the slow partition.
    spec fn spec_slow_rhs(&self, t: T, y_slow: Entries<T>, y_fast: Entries<T>) -> Entries<T>;

    /// Derivative of the fast partition.
    spec fn spec_fast_rhs(&self, t: T, y_slow: Entries<T>, y_fast: Entries<T>) -> Entries<T>;

    /// Entries of the slow partition.
    fn slow_dim(&self) -> (n: usize)
        ensures
            n == self.spec_slow_dim(),
    ;

    /// Entries of the fast partition.
    fn fast_dim(&self) -> (n: usize)
        ensures
            n == self.spec_fast_dim(),
    ;

    /// Derivative of the slow partition at time `t`.
    fn slow_rhs(&self, t: T, y_slow: &[T], y_fast: &[T]) -> (dy: Vec<T>)
        ensures
            dy@ == self.spec_slow_rhs(t, y_slow@, y_fast@),
    ;

    /// Derivative of the fast partition at time `t`.
    fn fast_rhs(&self, t: T, y_slow: &[T], y_fast: &[T]) -> (dy: Vec<T>)
        ensures
            dy@ == self.spec_fast_rhs(t, y_slow@, y_fast@),
    ;
}

/// One of the two partitions of the state.
#[derive(Clone, Copy, Debug, PartialEq, Eq, Structural)]
pub enum Part {
    Slow,
    Fast,
}

/// Derivative of the partition `part` where that partition holds `y` and the
/// other one holds `other`.
pub open spec fn spec_slope<T: Scalar, Sys: MultirateSystem<T>>(
    sys: &Sys,
    part: Part,
    t: T,
    y: Seq<T>,
    other: Seq<T>,
) -> Seq<T> {
    match part {
        Part::Slow => sys.spec_slow_rhs(t, y, other),
        Part::Fast => sys.spec_fast_rhs(t, other, y),
    }
}

/// Derivative of the partition `part` where that partition holds `y` and the
/// other one holds `other`.
pub fn slope<T: Scalar, Sys: MultirateSystem<T>>(
    sys: &Sys,
    part: Part,
    t: T,
    y: &[T],
    other: &[T],
) -> (dy: Vec<T>)
    ensures
        dy@ == spec_slope(sys, part, t, y@, other@),
{
    match part {
        Part::Slow => sys.slow_rhs(t, y, other),
        Part::Fast => sys.fast_rhs(t, other, y),
    }
}

} // verus!

//! The stepping schemes of a multirate integration and the options that
//! select one.
//!
//! A multirate integration advances a state that is split into a slow and a
//! fast part. One macro step of the solver advances both parts over the same
//! interval; inside it the fast part takes many micro steps.

use vstd::prelude::*;
use crate::scalar::Scalar;

verus! {

/// A single-rate method that advances one partition on its own.
#[derive(Clone, Copy, Debug, PartialEq, Eq, Structural)]
pub enum ODEMethod {
    /// Explicit Euler, first order.
    Euler,
    /// Classical four-stage Runge-Kutta, fourth order.
    RK4,
}

/// The scheme that advances the state over one macro interval.
#[derive(Clone, Copy, Debug, PartialEq, Eq, Structural)]
pub enum MultirateMethod {
    /// The macro interval is cut into `macro_steps` equal parts; in each the
    /// fast partition takes `micro_steps` Runge-Kutta steps against the slow
    /// state of the part's start, then the slow partition takes one.
    ExplicitMRK { macro_steps: usize, micro_steps: usize },
    /// The fast partition crosses the whole interval by `fast_method` with the
    /// slow state held, then the slow partition crosses it by `slow_method`
    /// against the new fast state.
    CompoundFastSlow { fast_method: ODEMethod, slow_method: ODEMethod },
    /// `levels` advances of the interval, the first with `base_ratio` micro
    /// steps and each further one with twice as many, combined by Richardson
    /// extrapolation.
    Extrapolated { base_ratio: usize, levels: usize },
}

/// What is wrong with a set of options.
#[derive(Clone, Copy, Debug, PartialEq, Eq, Structural)]
pub enum ConfigFault {
    /// The macro step is zero or negative.
    MacroStep,
    /// A step count, ratio or level count of the method is zero, or the
    /// finest level has more micro steps than the machine can count.
    MethodCount,
    /// The relative tolerance is zero or negative.
    RelativeTolerance,
    /// The absolute tolerance is zero or negative.
    AbsoluteTolerance,
}

/// The settings of a solver.
#[derive(Clone, Copy, Debug)]
pub struct MultirateOptions<T: Scalar> {
    /// The stepping scheme.
    pub method: MultirateMethod,
    /// The size of a macro step.
    pub macro_step: T,
    /// The relative tolerance.
    pub rtol: T,
    /// The absolute tolerance.
    pub atol: T,
    /// The most macro steps that one solve may take.
    pub max_steps: usize,
    /// How far apart the two time scales are thought to be. A hint for
    /// tuning: no result depends on it.
    pub timescale_ratio: Option<T>,
}

/// Whether a setting is zero or negative, which no step size or tolerance may
/// be: whether zero is at least as large.
pub open spec fn spec_not_positive<T: Scalar>(x: T) -> bool {
    T::spec_of_count(0).spec_reaches(x)
}

/// Whether a setting is zero or negative.
#[verifier::when_used_as_spec(spec_not_positive)]
pub fn not_positive<T: Scalar>(x: T) -> (b: bool)
    ensures
        b == spec_not_positive(x),
{
    T::of_count(0).reaches(x)
}

/// Two to the power `k`.
pub open spec fn pow2(k: nat) -> nat
    decreases k,
{
    if k == 0 {
        1
    } else {
        2 * pow2((k - 1) as nat)
    }
}

impl MultirateMethod {
    /// Whether the counts of the scheme can be used: each is positive, and the
    /// micro steps of every advance can be counted by the machine.
    pub open spec fn spec_counts_valid(&self) -> bool {
        match *self {
            MultirateMethod::ExplicitMRK { macro_steps, micro_steps } => macro_steps > 0
                && micro_steps > 0,
            MultirateMethod::CompoundFastSlow { .. } => true,
            MultirateMethod::Extrapolated { base_ratio, levels } => base_ratio > 0 && levels > 0
                && forall|k: nat| k < levels ==> #[trigger] self.micro_steps_at(k) <= usize::MAX,
        }
    }

    /// Whether the counts of the scheme can be used.
    #[verifier::when_used_as_spec(spec_counts_valid)]
    pub fn counts_valid(&self) -> (b: bool)
        ensures
            b == self.spec_counts_valid(),
    {
        match *self {
            MultirateMethod::ExplicitMRK { macro_steps, micro_steps } => macro_steps > 0
                && micro_steps > 0,
            MultirateMethod::CompoundFastSlow { .. } => true,
            MultirateMethod::Extrapolated { base_ratio, levels } => {
                if base_ratio > 0 && levels > 0 {
                    let schedule = self.micro_step_schedule();
                    proof {
                        if schedule is Some {
                            let counts = schedule->Some_0@;
                            assert forall|k: nat| k < levels implies #[trigger] self.micro_steps_at(
                                k,
                            ) <= usize::MAX by {
                                assert(counts[k as int] == self.micro_steps_at(k));
                            }
                        }
                    }
                    schedule.is_some()
                } else {
                    false
                }
            },
        }
    }

    /// How many advances of the macro interval the scheme makes per macro
    /// step: one, or the number of extrapolation levels.
    pub open spec fn passes(&self) -> nat {
        match *self {
            MultirateMethod::Extrapolated { levels, .. } => levels as nat,
            _ => 1,
        }
    }

    /// Micro steps that the fast partition takes in each part of the macro
    /// interval during advance number `pass`.
    pub open spec fn micro_steps_at(&self, pass: nat) -> nat {
        match *self {
            MultirateMethod::ExplicitMRK { micro_steps, .. } => micro_steps as nat,
            MultirateMethod::CompoundFastSlow { .. } => 1,
            MultirateMethod::Extrapolated { base_ratio, .. } => (base_ratio * pow2(pass)) as nat,
        }
    }

    /// The micro step count of each advance that the scheme makes per macro
    /// step, in the order of the advances. There is no schedule where a count
    /// does not fit the machine's index type.
    pub fn micro_step_schedule(&self) -> (schedule: Option<Vec<usize>>)
        ensures
            match schedule {
                Some(counts) => counts@.len() == self.passes() && forall|k: int|
                    0 <= k < counts@.len() ==> counts@[k] == self.micro_steps_at(k as nat),
                None => exists|k: nat| k < self.passes() && self.micro_steps_at(k) > usize::MAX,
            },
    {
        let mut counts: Vec<usize> = Vec::new();
        match *self {
            MultirateMethod::ExplicitMRK { micro_steps, .. } => {
                counts.push(micro_steps);
            },
            MultirateMethod::CompoundFastSlow { .. } => {
                counts.push(1);
            },
            MultirateMethod::Extrapolated { base_ratio, levels } => {
                let mut current: usize = base_ratio;
                let mut k: usize = 0;
                assert(base_ratio * pow2(0) == base_ratio) by (nonlinear_arith)
                    requires
                        pow2(0) == 1,
                ;
                while k < levels
                    invariant
                        *self == (MultirateMethod::Extrapolated { base_ratio, levels }),
                        k <= levels,
                        counts@.len() == k,
                        forall|j: int| 0 <= j < k ==> counts@[j] == base_ratio * pow2(j as nat),
                        k < levels ==> current == base_ratio * pow2(k as nat),
                    decreases levels - k,
                {
                    counts.push(current);
                    k = k + 1;
                    if k < levels {
                        assert(pow2(k as nat) == 2 * pow2((k - 1) as nat));
                        assert(base_ratio * pow2(k as nat) == 2 * (base_ratio * pow2(
                            (k - 1) as nat,
                        ))) by (nonlinear_arith)
                            requires
                                pow2(k as nat) == 2 * pow2((k - 1) as nat),
                        ;
                        if current > usize::MAX / 2 {
                            assert(self.micro_steps_at(k as nat) > usize::MAX);
                            return None;
                        }
                        current = current * 2;
                    }
                }
            },
        }
        Some(counts)
    }
}

/// The first fault of `options`, if they have one. The macro step is looked
/// at first, then the method's counts, then the two tolerances.
pub open spec fn first_fault<T: Scalar>(options: MultirateOptions<T>) -> Option<ConfigFault> {
    if spec_not_positive(options.macro_step) {
        Some(ConfigFault::MacroStep)
    } else if !options.method.spec_counts_valid() {
        Some(ConfigFault::MethodCount)
    } else if spec_not_positive(options.rtol) {
        Some(ConfigFault::RelativeTolerance)
    } else if spec_not_positive(options.atol) {
        Some(ConfigFault::AbsoluteTolerance)
    } else {
        None
    }
}

/// Looks for a fault in `options`.
pub fn find_fault<T: Scalar>(options: &MultirateOptions<T>) -> (fault: Option<ConfigFault>)
    ensures
        fault == first_fault(*options),
{
    if not_positive(options.macro_step) {
        Some(ConfigFault::MacroStep)
    } else if !options.method.counts_valid() {
        Some(ConfigFault::MethodCount)
    } else if not_positive(options.rtol) {
        Some(ConfigFault::RelativeTolerance)
    } else if not_positive(options.atol) {
        Some(ConfigFault::AbsoluteTolerance)
    } else {
        None
    }
}

} // verus!

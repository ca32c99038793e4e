//! The solver driver: a state machine that walks a multirate integration from
//! its initial sample to its end, one macro step at a time, and the trajectory
//! that it leaves behind.
//!
//! The driver never looks inside a sample. Whoever advances the state tells it
//! whether the end time is reached and what each step produced; the driver
//! decides whether another step is due, keeps the samples in order, counts the
//! steps against the budget and records how the run ended.

use vstd::prelude::*;
use crate::method::ConfigFault;

verus! {

/// Why a solver could not be built or a solve did not reach its end.
#[derive(Clone, Copy, Debug, PartialEq, Eq, Structural)]
pub enum IntegrationError {
    /// The options are malformed.
    InvalidConfiguration(ConfigFault),
    /// The initial state has `found` entries where the partition declares
    /// `slow_dim` and `fast_dim` of them.
    DimensionMismatch { slow_dim: usize, fast_dim: usize, found: usize },
    /// Macro step number `step` (counted from zero) produced a value that is
    /// not finite.
    DivergenceError { step: usize },
    /// The step budget ran out after `steps` macro steps, before the end time.
    StepBudgetExceeded { steps: usize },
}

/// Where a run stands.
#[derive(Clone, Copy, Debug, PartialEq, Eq, Structural)]
pub enum Phase {
    /// Validated and seeded with the initial sample; no step asked for yet.
    Initialized,
    /// A macro step has been asked for.
    Stepping,
    /// The run is over: the end time was reached or the budget ran out.
    Completed,
    /// The run is over: a step diverged.
    Failed,
}

/// How a finished run ended.
#[derive(Clone, Copy, Debug, PartialEq, Eq, Structural)]
pub enum Ending {
    /// The last sample lies at the end time.
    ReachedEnd,
    /// The step budget ran out before the end time.
    StepBudgetExceeded,
    /// A step produced a value that is not finite.
    Diverged,
}

/// What the driver asks for next.
#[derive(Clone, Copy, Debug, PartialEq, Eq, Structural)]
pub enum Action {
    /// Take macro step number `index`, from the last sample.
    Step { index: usize },
    /// Take no further step.
    Stop,
}

/// What a macro step produced.
pub enum StepOutcome<S> {
    /// The sample at the end of the step.
    Advanced(S),
    /// A value that is not finite.
    Diverged,
}

/// The sizes of the slow and the fast partition of the state.
#[derive(Clone, Copy, Debug, PartialEq, Eq, Structural)]
pub struct Partition {
    pub slow_dim: usize,
    pub fast_dim: usize,
}

impl Partition {
    /// Whether a state of `found` entries fills the two partitions exactly.
    pub open spec fn spec_fits(&self, found: usize) -> bool {
        self.slow_dim + self.fast_dim == found
    }

    /// Whether a state of `found` entries fills the two partitions exactly.
    #[verifier::when_used_as_spec(spec_fits)]
    pub fn fits(&self, found: usize) -> (b: bool)
        ensures
            b == self.spec_fits(found),
    {
        found >= self.slow_dim && found - self.slow_dim == self.fast_dim
    }

    /// Accepts a state of `found` entries if it fills the two partitions
    /// exactly, and names the three numbers if it does not.
    pub fn check(&self, found: usize) -> (r: Result<(), IntegrationError>)
        ensures
            self.spec_fits(found) ==> r is Ok,
            !self.spec_fits(found) ==> r == Err::<(), IntegrationError>(
                IntegrationError::DimensionMismatch {
                    slow_dim: self.slow_dim,
                    fast_dim: self.fast_dim,
                    found,
                },
            ),
    {
        if self.fits(found) {
            Ok(())
        } else {
            Err(
                IntegrationError::DimensionMismatch {
                    slow_dim: self.slow_dim,
                    fast_dim: self.fast_dim,
                    found,
                },
            )
        }
    }
}

/// A run as the contracts see it.
pub ghost struct RunView<S> {
    pub phase: Phase,
    pub reached_end: bool,
    pub samples: Seq<S>,
    pub max_steps: nat,
}

impl<S> RunView<S> {
    /// Macro steps taken so far: every sample but the first came from one.
    pub open spec fn n_steps(self) -> nat {
        (self.samples.len() - 1) as nat
    }

    /// The run holds its initial sample, is within its budget, has taken no
    /// step before the first was asked for, and has reached the end only if it
    /// is completed.
    pub open spec fn wf(self) -> bool {
        &&& self.samples.len() >= 1
        &&& self.n_steps() <= self.max_steps
        &&& self.phase is Initialized ==> self.n_steps() == 0
        &&& self.reached_end ==> self.phase is Completed
    }

    /// Whether the run is over.
    pub open spec fn finished(self) -> bool {
        self.phase is Completed || self.phase is Failed
    }

    /// What the driver asks for when it is told whether the last sample lies
    /// at the end time. A finished run asks for nothing more. Otherwise the
    /// end time is looked at before the budget.
    pub open spec fn action(self, at_end: bool) -> Action {
        if self.finished() || at_end || self.n_steps() >= self.max_steps {
            Action::Stop
        } else {
            Action::Step { index: self.n_steps() as usize }
        }
    }

    /// The run after it has been asked what to do next.
    pub open spec fn polled(self, at_end: bool) -> RunView<S> {
        if self.finished() {
            self
        } else if at_end {
            RunView { phase: Phase::Completed, reached_end: true, ..self }
        } else if self.n_steps() >= self.max_steps {
            RunView { phase: Phase::Completed, reached_end: false, ..self }
        } else {
            RunView { phase: Phase::Stepping, ..self }
        }
    }

    /// The run after the outcome of a step has been handed in. Only a run that
    /// has asked for a step takes one.
    pub open spec fn recorded(self, outcome: StepOutcome<S>) -> RunView<S> {
        if !(self.phase is Stepping) || self.n_steps() >= self.max_steps {
            self
        } else {
            match outcome {
                StepOutcome::Advanced(sample) => RunView {
                    samples: self.samples.push(sample),
                    ..self
                },
                StepOutcome::Diverged => RunView { phase: Phase::Failed, ..self },
            }
        }
    }

    /// How the run ended, if it is over.
    pub open spec fn ending(self) -> Option<Ending> {
        match self.phase {
            Phase::Completed => Some(
                if self.reached_end {
                    Ending::ReachedEnd
                } else {
                    Ending::StepBudgetExceeded
                },
            ),
            Phase::Failed => Some(Ending::Diverged),
            _ => None,
        }
    }
}

impl<S> RunView<S> {
    /// The run after it has been driven to its end on a stretch that takes
    /// `needed` further macro steps, none of which diverges: the driver is
    /// asked, each step that it asks for is taken and recorded, and the end
    /// time is reported once `needed` steps are behind. Step number `i` of the
    /// run leaves the sample `fill(i)`.
    pub open spec fn driven(self, needed: nat, fill: spec_fn(nat) -> S) -> RunView<S>
        decreases needed,
    {
        if needed == 0 {
            self.polled(true)
        } else {
            let asked = self.polled(false);
            if asked.phase is Stepping {
                asked.recorded(StepOutcome::Advanced(fill(asked.n_steps()))).driven(
                    (needed - 1) as nat,
                    fill,
                )
            } else {
                asked
            }
        }
    }
}

/// The budget decides how a run without divergence ends. If the stretch takes
/// no more steps than the budget has left, the run reaches the end after
/// exactly those steps. If it takes more, the run ends with the budget used up
/// and says so: it never passes for a run that reached the end.
pub proof fn lemma_budget_decides_ending<S>(run: RunView<S>, needed: nat, fill: spec_fn(nat) -> S)
    requires
        run.wf(),
        !run.finished(),
    ensures
        run.driven(needed, fill).wf(),
        run.samples.is_prefix_of(run.driven(needed, fill).samples),
        needed <= run.max_steps - run.n_steps() ==> {
            &&& run.driven(needed, fill).ending() == Some(Ending::ReachedEnd)
            &&& run.driven(needed, fill).n_steps() == run.n_steps() + needed
        },
        needed > run.max_steps - run.n_steps() ==> {
            &&& run.driven(needed, fill).ending() == Some(Ending::StepBudgetExceeded)
            &&& run.driven(needed, fill).n_steps() == run.max_steps
        },
    decreases needed,
{
    if needed > 0 {
        let asked = run.polled(false);
        if asked.phase is Stepping {
            let next = asked.recorded(StepOutcome::Advanced(fill(asked.n_steps())));
            lemma_budget_decides_ending(next, (needed - 1) as nat, fill);
        }
    }
}

/// A run only ever grows at its end: asking leaves the samples as they are,
/// and recording an outcome keeps them as the beginning of the new ones.
pub proof fn lemma_samples_only_grow<S>(run: RunView<S>, at_end: bool, outcome: StepOutcome<S>)
    ensures
        run.polled(at_end).samples == run.samples,
        run.samples.is_prefix_of(run.recorded(outcome).samples),
        run.recorded(outcome).samples.len() <= run.samples.len() + 1,
{
}

/// A finished run stays as it is, whatever it is asked or handed.
pub proof fn lemma_finished_is_final<S>(run: RunView<S>, at_end: bool, outcome: StepOutcome<S>)
    requires
        run.finished(),
    ensures
        run.polled(at_end) == run,
        run.recorded(outcome) == run,
        run.action(at_end) == Action::Stop,
{
}

/// The ordered samples of a finished run, the number of macro steps behind
/// them, and how the run ended.
pub struct Trajectory<S> {
    samples: Vec<S>,
    n_steps: usize,
    ending: Ending,
}

impl<S> Trajectory<S> {
    /// The samples in the order in which they were produced.
    pub closed spec fn view(&self) -> Seq<S> {
        self.samples@
    }

    /// Macro steps taken.
    pub closed spec fn spec_n_steps(&self) -> usize {
        self.n_steps
    }

    /// How the run ended.
    pub closed spec fn spec_ending(&self) -> Ending {
        self.ending
    }

    /// There is one sample for the start and one for each step.
    pub open spec fn wf(&self) -> bool {
        self@.len() == self.spec_n_steps() + 1
    }

    /// Whether the last sample lies at the end time.
    pub open spec fn spec_is_complete(&self) -> bool {
        self.spec_ending() is ReachedEnd
    }

    /// The samples in the order in which they were produced.
    pub fn samples(&self) -> (samples: &Vec<S>)
        ensures
            samples@ == self@,
    {
        &self.samples
    }

    /// Macro steps taken.
    #[verifier::when_used_as_spec(spec_n_steps)]
    pub fn n_steps(&self) -> (n: usize)
        ensures
            n == self.spec_n_steps(),
    {
        self.n_steps
    }

    /// How the run ended.
    #[verifier::when_used_as_spec(spec_ending)]
    pub fn ending(&self) -> (e: Ending)
        ensures
            e == self.spec_ending(),
    {
        self.ending
    }

    /// Whether the last sample lies at the end time.
    #[verifier::when_used_as_spec(spec_is_complete)]
    pub fn is_complete(&self) -> (b: bool)
        ensures
            b == self.spec_is_complete(),
    {
        match self.ending {
            Ending::ReachedEnd => true,
            _ => false,
        }
    }

    /// The last sample: the state at the last valid time.
    pub fn last(&self) -> (sample: &S)
        requires
            self.wf(),
        ensures
            *sample == self@[self@.len() - 1],
    {
        &self.samples[self.samples.len() - 1]
    }

    /// The ending as a result: `Ok` where the end time was reached, otherwise
    /// the error that names the ending and the number of steps behind the last
    /// valid sample.
    pub fn status(&self) -> (r: Result<(), IntegrationError>)
        ensures
            r == match self.spec_ending() {
                Ending::ReachedEnd => Ok::<(), IntegrationError>(()),
                Ending::StepBudgetExceeded => Err(
                    IntegrationError::StepBudgetExceeded { steps: self.spec_n_steps() },
                ),
                Ending::Diverged => Err(
                    IntegrationError::DivergenceError { step: self.spec_n_steps() },
                ),
            },
    {
        match self.ending {
            Ending::ReachedEnd => Ok(()),
            Ending::StepBudgetExceeded => Err(
                IntegrationError::StepBudgetExceeded { steps: self.n_steps },
            ),
            Ending::Diverged => Err(IntegrationError::DivergenceError { step: self.n_steps }),
        }
    }
}

/// A run in progress.
pub struct Run<S> {
    phase: Phase,
    reached_end: bool,
    samples: Vec<S>,
    max_steps: usize,
}

impl<S> Run<S> {
    /// The run as the contracts see it.
    pub closed spec fn view(&self) -> RunView<S> {
        RunView {
            phase: self.phase,
            reached_end: self.reached_end,
            samples: self.samples@,
            max_steps: self.max_steps as nat,
        }
    }

    /// A run seeded with its initial sample, with a budget of `max_steps`
    /// macro steps.
    pub fn start(max_steps: usize, initial: S) -> (run: Run<S>)
        ensures
            run@ == (RunView {
                phase: Phase::Initialized,
                reached_end: false,
                samples: seq![initial],
                max_steps: max_steps as nat,
            }),
            run@.wf(),
    {
        let mut samples: Vec<S> = Vec::new();
        samples.push(initial);
        let run = Run { phase: Phase::Initialized, reached_end: false, samples, max_steps };
        assert(run@.samples =~= seq![initial]);
        run
    }

    /// Where the run stands.
    pub fn phase(&self) -> (p: Phase)
        ensures
            p == self@.phase,
    {
        self.phase
    }

    /// Macro steps taken so far.
    pub fn n_steps(&self) -> (n: usize)
        requires
            self@.wf(),
        ensures
            n == self@.n_steps(),
    {
        self.samples.len() - 1
    }

    /// The last sample, from which the next step starts.
    pub fn last(&self) -> (sample: &S)
        requires
            self@.wf(),
        ensures
            *sample == self@.samples[self@.samples.len() - 1],
    {
        &self.samples[self.samples.len() - 1]
    }

    /// Asks the driver what to do next, given whether the last sample lies at
    /// the end time. The run completes here when the end is reached or, failing
    /// that, when the budget is used up.
    pub fn poll(&mut self, at_end: bool) -> (action: Action)
        requires
            old(self)@.wf(),
        ensures
            final(self)@ == old(self)@.polled(at_end),
            action == old(self)@.action(at_end),
            final(self)@.wf(),
            action is Step ==> final(self)@.phase is Stepping,
            action is Step ==> final(self)@.n_steps() < final(self)@.max_steps,
            action is Stop ==> final(self)@.finished(),
            final(self)@.ending() == Some(Ending::ReachedEnd) ==> at_end || old(self)@.ending()
                == Some(Ending::ReachedEnd),
    {
        match self.phase {
            Phase::Completed => Action::Stop,
            Phase::Failed => Action::Stop,
            _ => {
                let taken: usize = self.samples.len() - 1;
                if at_end {
                    self.phase = Phase::Completed;
                    self.reached_end = true;
                    Action::Stop
                } else if taken >= self.max_steps {
                    self.phase = Phase::Completed;
                    self.reached_end = false;
                    Action::Stop
                } else {
                    self.phase = Phase::Stepping;
                    Action::Step { index: taken }
                }
            },
        }
    }

    /// Hands the outcome of the step that was asked for to the driver. A new
    /// sample is appended and counted; a divergence fails the run and leaves
    /// the samples as they are. A run that has asked for no step ignores the
    /// outcome.
    pub fn record(&mut self, outcome: StepOutcome<S>)
        requires
            old(self)@.wf(),
        ensures
            final(self)@ == old(self)@.recorded(outcome),
            final(self)@.wf(),
    {
        match self.phase {
            Phase::Stepping => {
                if self.samples.len() - 1 < self.max_steps {
                    match outcome {
                        StepOutcome::Advanced(sample) => {
                            self.samples.push(sample);
                        },
                        StepOutcome::Diverged => {
                            self.phase = Phase::Failed;
                        },
                    }
                }
            },
            _ => {},
        }
    }

    /// Closes a finished run into its trajectory.
    pub(crate) fn close(self) -> (t: Trajectory<S>)
        requires
            self@.wf(),
            self@.finished(),
        ensures
            t@ == self@.samples,
            t.wf(),
            Some(t.spec_ending()) == self@.ending(),
    {
        let n_steps: usize = self.samples.len() - 1;
        let ending = match self.phase {
            Phase::Failed => Ending::Diverged,
            _ => if self.reached_end {
                Ending::ReachedEnd
            } else {
                Ending::StepBudgetExceeded
            },
        };
        Trajectory { samples: self.samples, n_steps, ending }
    }

    /// Closes a finished run into its trajectory. A run that is not over has
    /// none.
    pub fn finish(self) -> (r: Option<Trajectory<S>>)
        requires
            self@.wf(),
        ensures
            r is Some <==> self@.finished(),
            r is Some ==> {
                &&& r->Some_0@ == self@.samples
                &&& r->Some_0.wf()
                &&& Some(r->Some_0.spec_ending()) == self@.ending()
            },
    {
        match self.phase {
            Phase::Completed => Some(self.close()),
            Phase::Failed => Some(self.close()),
            _ => None,
        }
    }
}

} // verus!

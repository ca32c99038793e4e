//! The solver: validated options, the check of the initial state against the
//! partition, and the loop that integrates a system from the start of a time
//! interval to its end.

use vstd::prelude::*;
use crate::driver::{
    Action,
    Ending,
    IntegrationError,
    Partition,
    Run,
    StepOutcome,
    Trajectory,
};
use crate::method::{find_fault, first_fault, MultirateOptions};
use crate::scalar::{all_finite, spec_all_finite, Scalar};
use crate::scheme::{lemma_step_keeps_lengths, spec_step, step, State, StateView};
use crate::system::MultirateSystem;

verus! {

/// A time and the full state at that time: the slow partition followed by the
/// fast one.
#[derive(Debug)]
pub struct Sample<T: Scalar> {
    pub t: T,
    pub y: Vec<T>,
}

/// A sample as the contracts see it.
pub ghost struct SampleView<T> {
    pub t: T,
    pub y: Seq<T>,
}

impl<T: Scalar> View for Sample<T> {
    type V = SampleView<T>;

    open spec fn view(&self) -> SampleView<T> {
        SampleView { t: self.t, y: self.y@ }
    }
}

/// The samples of a trajectory as the contracts see them.
pub open spec fn points<T: Scalar>(samples: Seq<Sample<T>>) -> Seq<SampleView<T>> {
    samples.map_values(|s: Sample<T>| s@)
}

/// A solve that did not come to a trajectory: the error, and the samples up to
/// the last valid one where the run had begun.
pub struct SolveError<T: Scalar> {
    pub error: IntegrationError,
    pub partial: Option<Trajectory<Sample<T>>>,
}

/// The state that a full vector holds: its first `slow_dim` entries are the
/// slow partition, the rest the fast one.
pub open spec fn spec_split<T>(y: Seq<T>, slow_dim: usize) -> StateView<T> {
    StateView { slow: y.subrange(0, slow_dim as int), fast: y.subrange(slow_dim as int, y.len() as int) }
}

/// The full vector of a state: the slow partition followed by the fast one.
pub open spec fn spec_join<T>(state: StateView<T>) -> Seq<T> {
    state.slow + state.fast
}

/// The two partitions of a full vector.
fn split<T: Scalar>(y: &[T], slow_dim: usize) -> (state: State<T>)
    requires
        slow_dim <= y@.len(),
    ensures
        state@ == spec_split(y@, slow_dim),
{
    let mut slow: Vec<T> = Vec::new();
    let mut fast: Vec<T> = Vec::new();
    let mut i: usize = 0;
    while i < slow_dim
        invariant
            i <= slow_dim <= y@.len(),
            slow@ == y@.subrange(0, i as int),
        decreases slow_dim - i,
    {
        slow.push(y[i]);
        assert(slow@ =~= y@.subrange(0, i + 1));
        i = i + 1;
    }
    while i < y.len()
        invariant
            slow_dim <= i <= y@.len(),
            fast@ == y@.subrange(slow_dim as int, i as int),
        decreases y@.len() - i,
    {
        fast.push(y[i]);
        assert(fast@ =~= y@.subrange(slow_dim as int, i + 1));
        i = i + 1;
    }
    State { slow, fast }
}

/// The full vector of a state.
fn join<T: Scalar>(state: State<T>) -> (y: Vec<T>)
    ensures
        y@ == spec_join(state@),
{
    let State { slow, fast } = state;
    let mut y = slow;
    let mut tail = fast;
    y.append(&mut tail);
    y
}

/// What an integration is made of, apart from its initial state: the system,
/// the options, where the slow partition ends in the full vector, and the end
/// time.
pub struct Problem<'a, T: Scalar, Sys: MultirateSystem<T>> {
    pub system: &'a Sys,
    pub options: MultirateOptions<T>,
    pub slow_dim: usize,
    pub t_end: T,
}

impl<'a, T: Scalar, Sys: MultirateSystem<T>> Problem<'a, T, Sys> {
    /// Whether a sample lies at the end time: whether its time is at least the
    /// end time.
    pub open spec fn spec_at_end(&self, sample: SampleView<T>) -> bool {
        sample.t.spec_reaches(self.t_end)
    }

    /// Whether the macro step from `from` is the last one: whether a step of
    /// full size would arrive at the end time or beyond.
    pub open spec fn spec_lands(&self, from: SampleView<T>) -> bool {
        from.t.spec_sum(self.options.macro_step).spec_reaches(self.t_end)
    }

    /// The sample that one macro step from `from` arrives at, whether or not
    /// it is finite. The last step is cut to the distance that is left and
    /// arrives at the end time itself; every other step has the full size.
    pub open spec fn spec_arrival(&self, from: SampleView<T>) -> SampleView<T> {
        let h = if self.spec_lands(from) {
            self.t_end.spec_diff(from.t)
        } else {
            self.options.macro_step
        };
        let t = if self.spec_lands(from) {
            self.t_end
        } else {
            from.t.spec_sum(self.options.macro_step)
        };
        SampleView {
            t,
            y: spec_join(
                spec_step(
                    self.system,
                    self.options.method,
                    from.t,
                    spec_split(from.y, self.slow_dim),
                    h,
                ),
            ),
        }
    }

    /// Whether a sample is finite: its time and every entry of its state.
    pub open spec fn spec_finite(sample: SampleView<T>) -> bool {
        sample.t.spec_is_finite() && spec_all_finite(sample.y)
    }

    /// The samples and the ending of a run that continues from `points`, the
    /// samples so far, with `budget` macro steps left. The run stops at the
    /// first of: a last sample at the end time; no budget left; a step whose
    /// arrival is not finite, which is not kept.
    pub open spec fn spec_run(&self, points: Seq<SampleView<T>>, budget: nat) -> (
        Seq<SampleView<T>>,
        Ending,
    )
        decreases budget,
    {
        if self.spec_at_end(points.last()) {
            (points, Ending::ReachedEnd)
        } else if budget == 0 {
            (points, Ending::StepBudgetExceeded)
        } else if !Self::spec_finite(self.spec_arrival(points.last())) {
            (points, Ending::Diverged)
        } else {
            self.spec_run(points.push(self.spec_arrival(points.last())), (budget - 1) as nat)
        }
    }

    /// Whether a sample lies at the end time.
    pub fn at_end(&self, sample: &Sample<T>) -> (b: bool)
        ensures
            b == self.spec_at_end(sample@),
    {
        sample.t.reaches(self.t_end)
    }

    /// Takes one macro step from `from`. A step that arrives at a sample that
    /// is not finite has diverged.
    pub fn advance(&self, from: &Sample<T>) -> (outcome: StepOutcome<Sample<T>>)
        requires
            self.options.method.spec_counts_valid(),
            self.slow_dim <= from@.y.len(),
        ensures
            match outcome {
                StepOutcome::Advanced(sample) => sample@ == self.spec_arrival(from@)
                    && Self::spec_finite(sample@),
                StepOutcome::Diverged => !Self::spec_finite(self.spec_arrival(from@)),
            },
            outcome is Advanced ==> outcome->Advanced_0@.y.len() == from@.y.len(),
    {
        let full = from.t.sum(self.options.macro_step);
        let lands = full.reaches(self.t_end);
        let h = if lands {
            self.t_end.diff(from.t)
        } else {
            self.options.macro_step
        };
        let t = if lands {
            self.t_end
        } else {
            full
        };
        let state = split(from.y.as_slice(), self.slow_dim);
        let next = step(self.system, &self.options.method, from.t, &state, h);
        let y = join(next);
        if t.is_finite() && all_finite(y.as_slice()) {
            StepOutcome::Advanced(Sample { t, y })
        } else {
            StepOutcome::Diverged
        }
    }
}

/// A run keeps the samples it started from and adds at most one for each
/// macro step of its budget. Its ending tells the truth about its last
/// sample: a run that is said to have reached the end has its last sample at
/// the end time; a run whose budget ran out has used all of it and still is
/// short of the end; a run that diverged had budget left and stopped before
/// the sample that is not finite.
pub proof fn lemma_run_ending<T: Scalar, Sys: MultirateSystem<T>>(
    problem: Problem<'_, T, Sys>,
    points: Seq<SampleView<T>>,
    budget: nat,
)
    requires
        points.len() >= 1,
    ensures
        ({
            let (samples, ending) = problem.spec_run(points, budget);
            &&& points.is_prefix_of(samples)
            &&& samples.len() <= points.len() + budget
            &&& ending is ReachedEnd <==> problem.spec_at_end(samples.last())
            &&& ending is StepBudgetExceeded ==> samples.len() == points.len() + budget
            &&& ending is Diverged ==> samples.len() < points.len() + budget && !Problem::<
                T,
                Sys,
            >::spec_finite(problem.spec_arrival(samples.last()))
        }),
    decreases budget,
{
    if !problem.spec_at_end(points.last()) && budget > 0 && Problem::<T, Sys>::spec_finite(
        problem.spec_arrival(points.last()),
    ) {
        let next = points.push(problem.spec_arrival(points.last()));
        lemma_run_ending(problem, next, (budget - 1) as nat);
    }
}

/// The state never changes its length. Where the slow partition fits into
/// the samples that a run starts from and these all have `width` entries,
/// every sample of the run has `width` entries.
pub proof fn lemma_run_keeps_width<T: Scalar, Sys: MultirateSystem<T>>(
    problem: Problem<'_, T, Sys>,
    points: Seq<SampleView<T>>,
    budget: nat,
    width: nat,
)
    requires
        points.len() >= 1,
        problem.slow_dim <= width,
        forall|i: int| 0 <= i < points.len() ==> (#[trigger] points[i]).y.len() == width,
    ensures
        forall|i: int|
            0 <= i < problem.spec_run(points, budget).0.len() ==> (#[trigger] problem.spec_run(
                points,
                budget,
            ).0[i]).y.len() == width,
    decreases budget,
{
    if !problem.spec_at_end(points.last()) && budget > 0 && Problem::<T, Sys>::spec_finite(
        problem.spec_arrival(points.last()),
    ) {
        let from = points.last();
        let next = points.push(problem.spec_arrival(from));
        lemma_step_keeps_lengths(
            problem.system,
            problem.options.method,
            from.t,
            spec_split(from.y, problem.slow_dim),
            if problem.spec_lands(from) {
                problem.t_end.spec_diff(from.t)
            } else {
                problem.options.macro_step
            },
        );
        assert forall|i: int| 0 <= i < next.len() implies (#[trigger] next[i]).y.len()
            == width by {
            if i < points.len() {
                assert(next[i] == points[i]);
            }
        }
        lemma_run_keeps_width(problem, next, (budget - 1) as nat, width);
        assert(problem.spec_run(points, budget) == problem.spec_run(next, (budget - 1) as nat));
    } else {
        assert(problem.spec_run(points, budget).0 == points);
    }
}

/// The end time is met exactly. Where a run from a single initial sample has
/// taken at least one macro step and reached the end, the time of its last
/// sample is the end time itself, whether or not the macro step divides the
/// interval.
pub proof fn lemma_exact_endpoint<T: Scalar, Sys: MultirateSystem<T>>(
    problem: Problem<'_, T, Sys>,
    start: SampleView<T>,
    budget: nat,
)
    ensures
        ({
            let (samples, ending) = problem.spec_run(seq![start], budget);
            ending is ReachedEnd && samples.len() > 1 ==> samples.last().t == problem.t_end
        }),
{
    lemma_endpoint_from(problem, seq![start], budget);
}

/// The end time is met exactly by a run that continues from samples of which
/// the last, if it came from a step, is at the end time or short of it.
proof fn lemma_endpoint_from<T: Scalar, Sys: MultirateSystem<T>>(
    problem: Problem<'_, T, Sys>,
    points: Seq<SampleView<T>>,
    budget: nat,
)
    requires
        points.len() >= 1,
        points.len() > 1 ==> points.last().t == problem.t_end || !problem.spec_at_end(
            points.last(),
        ),
    ensures
        ({
            let (samples, ending) = problem.spec_run(points, budget);
            ending is ReachedEnd && samples.len() > 1 ==> samples.last().t == problem.t_end
        }),
    decreases budget,
{
    if !problem.spec_at_end(points.last()) && budget > 0 && Problem::<T, Sys>::spec_finite(
        problem.spec_arrival(points.last()),
    ) {
        let next = points.push(problem.spec_arrival(points.last()));
        lemma_endpoint_from(problem, next, (budget - 1) as nat);
    }
}

/// A solver: options that have passed validation. It keeps nothing between
/// solves.
pub struct MultirateSolver<T: Scalar> {
    options: MultirateOptions<T>,
}

impl<T: Scalar> MultirateSolver<T> {
    /// The options of the solver.
    pub closed spec fn spec_options(&self) -> MultirateOptions<T> {
        self.options
    }

    /// The options of a solver have no fault.
    pub open spec fn wf(&self) -> bool {
        first_fault(self.spec_options()) is None
    }

    /// Builds a solver from options that have no fault, and names the first
    /// fault of those that have one.
    pub fn new(options: MultirateOptions<T>) -> (r: Result<MultirateSolver<T>, IntegrationError>)
        ensures
            match first_fault(options) {
                None => r is Ok && r->Ok_0.spec_options() == options && r->Ok_0.wf(),
                Some(fault) => r is Err && r->Err_0 == IntegrationError::InvalidConfiguration(
                    fault,
                ),
            },
    {
        match find_fault(&options) {
            None => Ok(MultirateSolver { options }),
            Some(fault) => Err(IntegrationError::InvalidConfiguration(fault)),
        }
    }

    /// The options of the solver.
    #[verifier::when_used_as_spec(spec_options)]
    pub fn options(&self) -> (options: MultirateOptions<T>)
        ensures
            options == self.spec_options(),
    {
        self.options
    }

    /// Integrates `system` from the state `y0` at time `t_span[0]` to the time
    /// `t_span[1]`.
    ///
    /// An initial state that does not fill the two partitions of the system
    /// is refused before any step. Otherwise the run is the one that
    /// `Problem::spec_run` defines: macro steps are taken from the initial
    /// sample until a sample lies at the end time, the step budget is used up
    /// or a step diverges. Reaching the end and running out of budget both
    /// give the trajectory, told apart by its ending. A divergence gives an
    /// error that names the failed step and carries the samples before it.
    /// Every sample has as many entries as the initial state, and where steps
    /// were taken and the end was reached, the last sample has the end time.
    pub fn solve<Sys: MultirateSystem<T>>(&self, system: Sys, t_span: [T; 2], y0: Vec<T>) -> (r:
        Result<Trajectory<Sample<T>>, SolveError<T>>)
        requires
            self.wf(),
        ensures
            ({
                let partition = Partition {
                    slow_dim: system.spec_slow_dim(),
                    fast_dim: system.spec_fast_dim(),
                };
                let problem = Problem {
                    system: &system,
                    options: self.spec_options(),
                    slow_dim: system.spec_slow_dim(),
                    t_end: t_span[1],
                };
                let start = SampleView { t: t_span[0], y: y0@ };
                let run = problem.spec_run(seq![start], self.spec_options().max_steps as nat);
                &&& !partition.spec_fits(y0.len()) ==> r is Err && r->Err_0.partial is None
                    && r->Err_0.error == (IntegrationError::DimensionMismatch {
                    slow_dim: partition.slow_dim,
                    fast_dim: partition.fast_dim,
                    found: y0.len(),
                })
                &&& partition.spec_fits(y0.len()) ==> match r {
                    Ok(trajectory) => {
                        &&& !(run.1 is Diverged)
                        &&& points(trajectory@) == run.0
                        &&& trajectory.spec_ending() == run.1
                        &&& trajectory.wf()
                        &&& trajectory.spec_n_steps() <= self.spec_options().max_steps
                        &&& forall|i: int|
                            0 <= i < trajectory@.len() ==> (#[trigger] trajectory@[i])@.y.len()
                                == y0@.len()
                        &&& trajectory.spec_ending() is ReachedEnd && trajectory.spec_n_steps() > 0
                            ==> trajectory@.last()@.t == t_span[1]
                    },
                    Err(e) => {
                        &&& run.1 is Diverged
                        &&& e.partial is Some
                        &&& points(e.partial->Some_0@) == run.0
                        &&& e.partial->Some_0.spec_ending() is Diverged
                        &&& e.partial->Some_0.wf()
                        &&& e.error == (IntegrationError::DivergenceError {
                            step: e.partial->Some_0.spec_n_steps(),
                        })
                    },
                }
            }),
    {
        let partition = Partition { slow_dim: system.slow_dim(), fast_dim: system.fast_dim() };
        match partition.check(y0.len()) {
            Ok(()) => {},
            Err(error) => {
                return Err(SolveError { error, partial: None });
            },
        }
        let problem = Problem {
            system: &system,
            options: self.options,
            slow_dim: partition.slow_dim,
            t_end: t_span[1],
        };
        let ghost start = SampleView { t: t_span[0], y: y0@ };
        let ghost target = problem.spec_run(seq![start], self.options.max_steps as nat);
        let ghost width = y0@.len();
        let mut run = Run::start(self.options.max_steps, Sample { t: t_span[0], y: y0 });
        assert(points(run@.samples) =~= seq![start]);
        let first_at_end = problem.at_end(run.last());
        let mut action: Action = run.poll(first_at_end);
        loop
            invariant
                self.wf(),
                problem.options == self.spec_options(),
                problem.slow_dim <= width,
                problem.t_end == t_span[1],
                run@.wf(),
                run@.max_steps == self.spec_options().max_steps,
                forall|i: int|
                    0 <= i < run@.samples.len() ==> (#[trigger] run@.samples[i])@.y.len() == width,
                run@.n_steps() > 0 ==> run@.samples.last()@.t == t_span[1] || !problem.spec_at_end(
                    run@.samples.last()@,
                ),
                action is Step ==> {
                    &&& run@.phase is Stepping
                    &&& run@.n_steps() < run@.max_steps
                    &&& !problem.spec_at_end(run@.samples.last()@)
                    &&& problem.spec_run(
                        points(run@.samples),
                        (run@.max_steps - run@.n_steps()) as nat,
                    ) == target
                },
                action is Stop ==> {
                    &&& run@.finished()
                    &&& run@.ending() == Some(target.1)
                    &&& points(run@.samples) == target.0
                    &&& target.1 is ReachedEnd ==> problem.spec_at_end(run@.samples.last()@)
                },
            ensures
                run@.finished(),
            decreases run@.max_steps - run@.n_steps(), if action is Step { 1nat } else { 0nat },
        {
            match action {
                Action::Stop => {
                    break ;
                },
                Action::Step { index } => {
                    let ghost before = run@.samples;
                    assert(points(before).last() == before.last()@);
                    let outcome = problem.advance(run.last());
                    match outcome {
                        StepOutcome::Advanced(sample) => {
                            let ghost arrived = sample@;
                            run.record(StepOutcome::Advanced(sample));
                            assert(points(run@.samples) =~= points(before).push(arrived));
                            assert(points(run@.samples).last() == arrived);
                            let ghost left = (run@.max_steps - run@.n_steps()) as nat;
                            assert(problem.spec_run(points(run@.samples), left) == target);
                            let now_at_end = problem.at_end(run.last());
                            action = run.poll(now_at_end);
                        },
                        StepOutcome::Diverged => {
                            run.record(StepOutcome::Diverged);
                            assert(target == (points(before), Ending::Diverged));
                            action = Action::Stop;
                        },
                    }
                },
            }
        }
        let trajectory = run.close();
        match trajectory.status() {
            Err(IntegrationError::DivergenceError { step }) => Err(
                SolveError {
                    error: IntegrationError::DivergenceError { step },
                    partial: Some(trajectory),
                },
            ),
            _ => Ok(trajectory),
        }
    }
}

} // verus!

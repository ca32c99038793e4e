use multirate::driver::{Action, Ending, IntegrationError, Partition, Phase, Run, StepOutcome};

#[test]
fn a_run_starts_with_its_initial_sample() {
    let run = Run::start(3, 'a');
    assert_eq!(run.phase(), Phase::Initialized);
    assert_eq!(run.n_steps(), 0);
    assert_eq!(*run.last(), 'a');
    assert!(run.finish().is_none());
}

#[test]
fn a_run_that_starts_at_the_end_completes_at_once() {
    let mut run = Run::start(3, 'a');
    assert_eq!(run.poll(true), Action::Stop);
    assert_eq!(run.phase(), Phase::Completed);
    let trajectory = run.finish().unwrap();
    assert_eq!(trajectory.ending(), Ending::ReachedEnd);
    assert!(trajectory.is_complete());
    assert_eq!(trajectory.n_steps(), 0);
    assert_eq!(trajectory.samples(), &vec!['a']);
    assert_eq!(trajectory.status(), Ok(()));
}

#[test]
fn steps_are_asked_for_in_order_and_samples_kept_in_order() {
    let mut run = Run::start(5, 0u32);
    for i in 0..3usize {
        assert_eq!(run.poll(false), Action::Step { index: i });
        assert_eq!(run.phase(), Phase::Stepping);
        run.record(StepOutcome::Advanced(10 * (i as u32 + 1)));
        assert_eq!(run.n_steps(), i + 1);
        assert_eq!(*run.last(), 10 * (i as u32 + 1));
    }
    assert_eq!(run.poll(true), Action::Stop);
    let trajectory = run.finish().unwrap();
    assert_eq!(trajectory.ending(), Ending::ReachedEnd);
    assert_eq!(trajectory.n_steps(), 3);
    assert_eq!(trajectory.samples(), &vec![0, 10, 20, 30]);
    assert_eq!(*trajectory.last(), 30);
}

#[test]
fn the_budget_is_used_up_and_said_to_be() {
    let mut run = Run::start(2, 0u32);
    assert_eq!(run.poll(false), Action::Step { index: 0 });
    run.record(StepOutcome::Advanced(1));
    assert_eq!(run.poll(false), Action::Step { index: 1 });
    run.record(StepOutcome::Advanced(2));
    assert_eq!(run.poll(false), Action::Stop);
    assert_eq!(run.phase(), Phase::Completed);
    let trajectory = run.finish().unwrap();
    assert_eq!(trajectory.ending(), Ending::StepBudgetExceeded);
    assert!(!trajectory.is_complete());
    assert_eq!(trajectory.n_steps(), 2);
    assert_eq!(trajectory.samples(), &vec![0, 1, 2]);
    assert_eq!(trajectory.status(), Err(IntegrationError::StepBudgetExceeded { steps: 2 }));
}

#[test]
fn the_end_is_looked_at_before_the_budget() {
    let mut run = Run::start(1, 0u32);
    assert_eq!(run.poll(false), Action::Step { index: 0 });
    run.record(StepOutcome::Advanced(1));
    assert_eq!(run.poll(true), Action::Stop);
    assert_eq!(run.finish().unwrap().ending(), Ending::ReachedEnd);
}

#[test]
fn a_run_without_budget_stops_short_at_once() {
    let mut run = Run::start(0, 0u32);
    assert_eq!(run.poll(false), Action::Stop);
    let trajectory = run.finish().unwrap();
    assert_eq!(trajectory.ending(), Ending::StepBudgetExceeded);
    assert_eq!(trajectory.n_steps(), 0);
    assert_eq!(trajectory.status(), Err(IntegrationError::StepBudgetExceeded { steps: 0 }));
}

#[test]
fn a_divergence_fails_the_run_and_keeps_the_samples() {
    let mut run = Run::start(5, 0u32);
    assert_eq!(run.poll(false), Action::Step { index: 0 });
    run.record(StepOutcome::Advanced(1));
    assert_eq!(run.poll(false), Action::Step { index: 1 });
    run.record(StepOutcome::Diverged);
    assert_eq!(run.phase(), Phase::Failed);
    assert_eq!(run.n_steps(), 1);
    assert_eq!(run.poll(false), Action::Stop);
    assert_eq!(run.poll(true), Action::Stop);
    assert_eq!(run.phase(), Phase::Failed);
    let trajectory = run.finish().unwrap();
    assert_eq!(trajectory.ending(), Ending::Diverged);
    assert_eq!(trajectory.samples(), &vec![0, 1]);
    assert_eq!(trajectory.status(), Err(IntegrationError::DivergenceError { step: 1 }));
}

#[test]
fn an_outcome_that_was_not_asked_for_is_ignored() {
    let mut run = Run::start(5, 0u32);
    run.record(StepOutcome::Advanced(9));
    assert_eq!(run.phase(), Phase::Initialized);
    assert_eq!(run.n_steps(), 0);
    run.record(StepOutcome::Diverged);
    assert_eq!(run.phase(), Phase::Initialized);
    assert_eq!(run.poll(true), Action::Stop);
    run.record(StepOutcome::Advanced(9));
    run.record(StepOutcome::Diverged);
    assert_eq!(run.phase(), Phase::Completed);
    assert_eq!(run.finish().unwrap().samples(), &vec![0]);
}

#[test]
fn a_finished_run_stays_finished() {
    let mut run = Run::start(5, 0u32);
    assert_eq!(run.poll(true), Action::Stop);
    assert_eq!(run.poll(false), Action::Stop);
    assert_eq!(run.phase(), Phase::Completed);
    assert_eq!(run.finish().unwrap().ending(), Ending::ReachedEnd);
}

#[test]
fn a_run_in_progress_has_no_trajectory() {
    let mut run = Run::start(5, 0u32);
    assert_eq!(run.poll(false), Action::Step { index: 0 });
    assert!(run.finish().is_none());
}

#[test]
fn a_partition_takes_states_of_its_own_size_only() {
    let partition = Partition { slow_dim: 2, fast_dim: 3 };
    assert!(partition.fits(5));
    assert_eq!(partition.check(5), Ok(()));
    for found in [0, 2, 3, 4, 6] {
        assert!(!partition.fits(found));
        assert_eq!(
            partition.check(found),
            Err(IntegrationError::DimensionMismatch { slow_dim: 2, fast_dim: 3, found })
        );
    }
}

#[test]
fn a_partition_larger_than_the_machine_fits_nothing() {
    let partition = Partition { slow_dim: usize::MAX, fast_dim: 2 };
    assert!(!partition.fits(1));
    assert!(!partition.fits(usize::MAX));
    let partition = Partition { slow_dim: 0, fast_dim: 0 };
    assert!(partition.fits(0));
}

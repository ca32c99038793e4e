use multirate::method::{MultirateMethod, ODEMethod};

#[test]
fn the_explicit_scheme_has_one_pass() {
    let method = MultirateMethod::ExplicitMRK { macro_steps: 4, micro_steps: 50 };
    assert_eq!(method.micro_step_schedule(), Some(vec![50]));
    assert!(method.counts_valid());
}

#[test]
fn the_compound_scheme_has_one_pass_of_one_step() {
    let method = MultirateMethod::CompoundFastSlow {
        fast_method: ODEMethod::RK4,
        slow_method: ODEMethod::Euler,
    };
    assert_eq!(method.micro_step_schedule(), Some(vec![1]));
    assert!(method.counts_valid());
}

#[test]
fn each_level_doubles_the_micro_steps() {
    let method = MultirateMethod::Extrapolated { base_ratio: 10, levels: 4 };
    assert_eq!(method.micro_step_schedule(), Some(vec![10, 20, 40, 80]));
    let method = MultirateMethod::Extrapolated { base_ratio: 3, levels: 1 };
    assert_eq!(method.micro_step_schedule(), Some(vec![3]));
    let method = MultirateMethod::Extrapolated { base_ratio: 3, levels: 0 };
    assert_eq!(method.micro_step_schedule(), Some(vec![]));
}

#[test]
fn a_schedule_ends_where_the_machine_cannot_count() {
    let top = usize::MAX / 2 + 1;
    let method = MultirateMethod::Extrapolated { base_ratio: top, levels: 1 };
    assert_eq!(method.micro_step_schedule(), Some(vec![top]));
    let method = MultirateMethod::Extrapolated { base_ratio: top, levels: 2 };
    assert_eq!(method.micro_step_schedule(), None);
    let method = MultirateMethod::Extrapolated { base_ratio: usize::MAX / 2, levels: 2 };
    assert_eq!(method.micro_step_schedule(), Some(vec![usize::MAX / 2, usize::MAX - 1]));
    let method = MultirateMethod::Extrapolated { base_ratio: 1, levels: usize::BITS as usize };
    assert_eq!(method.micro_step_schedule().map(|s| s.len()), Some(usize::BITS as usize));
    let method = MultirateMethod::Extrapolated { base_ratio: 1, levels: usize::BITS as usize + 1 };
    assert_eq!(method.micro_step_schedule(), None);
}

#[test]
fn counts_are_valid_where_they_are_positive_and_can_be_counted() {
    assert!(!MultirateMethod::ExplicitMRK { macro_steps: 0, micro_steps: 1 }.counts_valid());
    assert!(!MultirateMethod::ExplicitMRK { macro_steps: 1, micro_steps: 0 }.counts_valid());
    assert!(MultirateMethod::ExplicitMRK { macro_steps: 1, micro_steps: 1 }.counts_valid());
    assert!(!MultirateMethod::Extrapolated { base_ratio: 0, levels: 1 }.counts_valid());
    assert!(!MultirateMethod::Extrapolated { base_ratio: 1, levels: 0 }.counts_valid());
    assert!(MultirateMethod::Extrapolated { base_ratio: 5, levels: 2 }.counts_valid());
    assert!(!MultirateMethod::Extrapolated { base_ratio: 5, levels: 70 }.counts_valid());
}

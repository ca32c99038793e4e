use multirate::boundary::{apply_boundary_condition, BoundaryMode};

const MODES: [BoundaryMode; 5] = [
    BoundaryMode::Constant,
    BoundaryMode::Nearest,
    BoundaryMode::Reflect,
    BoundaryMode::Mirror,
    BoundaryMode::Wrap,
];

#[test]
fn a_coordinate_on_the_axis_is_kept_by_every_mode() {
    for mode in MODES {
        for dim in 1..7isize {
            for coord in 0..dim {
                assert_eq!(apply_boundary_condition(coord, dim, &mode), coord as usize);
            }
        }
    }
}

#[test]
fn constant_answers_the_size_outside_the_axis() {
    assert_eq!(apply_boundary_condition(-1, 5, &BoundaryMode::Constant), 5);
    assert_eq!(apply_boundary_condition(5, 5, &BoundaryMode::Constant), 5);
    assert_eq!(apply_boundary_condition(100, 5, &BoundaryMode::Constant), 5);
    assert_eq!(apply_boundary_condition(isize::MIN, 5, &BoundaryMode::Constant), 5);
    assert_eq!(apply_boundary_condition(0, 0, &BoundaryMode::Constant), 0);
}

#[test]
fn nearest_clamps_to_the_edges() {
    assert_eq!(apply_boundary_condition(-3, 5, &BoundaryMode::Nearest), 0);
    assert_eq!(apply_boundary_condition(5, 5, &BoundaryMode::Nearest), 4);
    assert_eq!(apply_boundary_condition(isize::MAX, 5, &BoundaryMode::Nearest), 4);
    assert_eq!(apply_boundary_condition(isize::MIN, 5, &BoundaryMode::Nearest), 0);
}

#[test]
fn nearest_on_an_empty_axis() {
    assert_eq!(apply_boundary_condition(-1, 0, &BoundaryMode::Nearest), 0);
    assert_eq!(apply_boundary_condition(0, 0, &BoundaryMode::Nearest), usize::MAX);
}

#[test]
fn wrap_repeats_the_axis() {
    let expected = [3, 4, 0, 1, 2, 3, 4, 0, 1, 2, 3, 4, 0, 1];
    for (i, coord) in (-7..7isize).enumerate() {
        assert_eq!(apply_boundary_condition(coord, 5, &BoundaryMode::Wrap), expected[i]);
    }
    assert_eq!(apply_boundary_condition(-5, 5, &BoundaryMode::Wrap), 0);
    assert_eq!(apply_boundary_condition(-10, 5, &BoundaryMode::Wrap), 0);
    assert_eq!(apply_boundary_condition(3, 0, &BoundaryMode::Wrap), 0);
    assert_eq!(apply_boundary_condition(7, 1, &BoundaryMode::Wrap), 0);
}

#[test]
fn wrap_at_the_limits_of_the_machine() {
    assert_eq!(apply_boundary_condition(isize::MAX, isize::MAX, &BoundaryMode::Wrap), 0);
    assert_eq!(
        apply_boundary_condition(-1, isize::MAX, &BoundaryMode::Wrap),
        (isize::MAX - 1) as usize
    );
    assert_eq!(apply_boundary_condition(isize::MIN, isize::MAX, &BoundaryMode::Wrap),
        (isize::MAX - 1) as usize);
    assert_eq!(apply_boundary_condition(isize::MIN, 2, &BoundaryMode::Wrap), 0);
}

#[test]
fn reflect_folds_about_the_outer_edge() {
    // below the axis: -1 -> 0, -2 -> 1, ..., -5 -> 4, -6 -> 0
    assert_eq!(apply_boundary_condition(-1, 5, &BoundaryMode::Reflect), 0);
    assert_eq!(apply_boundary_condition(-2, 5, &BoundaryMode::Reflect), 1);
    assert_eq!(apply_boundary_condition(-5, 5, &BoundaryMode::Reflect), 4);
    assert_eq!(apply_boundary_condition(-6, 5, &BoundaryMode::Reflect), 0);
    // above the axis: 5 -> 4, 6 -> 3, ..., 9 -> 0
    assert_eq!(apply_boundary_condition(5, 5, &BoundaryMode::Reflect), 4);
    assert_eq!(apply_boundary_condition(6, 5, &BoundaryMode::Reflect), 3);
    assert_eq!(apply_boundary_condition(9, 5, &BoundaryMode::Reflect), 0);
    assert_eq!(apply_boundary_condition(isize::MIN, 5, &BoundaryMode::Reflect), (isize::MAX % 5) as usize);
}

#[test]
fn reflect_far_above_the_axis_leaves_the_index_range() {
    // 2 * 5 - 12 - 1 = -3, which keeps its sign under the remainder and lands
    // at the top of the index range
    assert_eq!(apply_boundary_condition(12, 5, &BoundaryMode::Reflect), usize::MAX - 2);
    assert_eq!(apply_boundary_condition(10, 5, &BoundaryMode::Reflect), usize::MAX);
    // 2 * 5 - 14 - 1 = -5, a multiple of the size
    assert_eq!(apply_boundary_condition(14, 5, &BoundaryMode::Reflect), 0);
}

#[test]
fn reflect_and_mirror_on_a_single_sample() {
    for coord in [-3, 0, 1, 9] {
        assert_eq!(apply_boundary_condition(coord, 1, &BoundaryMode::Reflect), 0);
        assert_eq!(apply_boundary_condition(coord, 1, &BoundaryMode::Mirror), 0);
        assert_eq!(apply_boundary_condition(coord, 0, &BoundaryMode::Reflect), 0);
        assert_eq!(apply_boundary_condition(coord, 0, &BoundaryMode::Mirror), 0);
    }
}

#[test]
fn mirror_folds_about_the_edge_samples() {
    // period 8 on an axis of 5
    assert_eq!(apply_boundary_condition(-1, 5, &BoundaryMode::Mirror), 1);
    assert_eq!(apply_boundary_condition(-2, 5, &BoundaryMode::Mirror), 2);
    assert_eq!(apply_boundary_condition(-4, 5, &BoundaryMode::Mirror), 4);
    assert_eq!(apply_boundary_condition(-8, 5, &BoundaryMode::Mirror), 0);
    assert_eq!(apply_boundary_condition(-9, 5, &BoundaryMode::Mirror), 1);
    // below the axis a fold that lands beyond the last sample is held there
    assert_eq!(apply_boundary_condition(-5, 5, &BoundaryMode::Mirror), 4);
    assert_eq!(apply_boundary_condition(-7, 5, &BoundaryMode::Mirror), 4);
    // above the axis: 8 - ((coord - 4) % 8) - 1, held at 4
    assert_eq!(apply_boundary_condition(5, 5, &BoundaryMode::Mirror), 4);
    assert_eq!(apply_boundary_condition(6, 5, &BoundaryMode::Mirror), 4);
    assert_eq!(apply_boundary_condition(8, 5, &BoundaryMode::Mirror), 3);
    assert_eq!(apply_boundary_condition(11, 5, &BoundaryMode::Mirror), 0);
    assert_eq!(apply_boundary_condition(12, 5, &BoundaryMode::Mirror), 4);
}

#[test]
fn mirror_at_the_limits_of_the_machine() {
    let last = (isize::MAX - 1) as usize;
    assert_eq!(apply_boundary_condition(isize::MAX, isize::MAX, &BoundaryMode::Mirror), last);
    assert_eq!(apply_boundary_condition(-1, isize::MAX, &BoundaryMode::Mirror), 1);
    assert_eq!(apply_boundary_condition(isize::MIN, 3, &BoundaryMode::Mirror), 0);
}

#[test]
fn clamping_folding_and_wrapping_stay_on_the_axis() {
    for mode in [BoundaryMode::Nearest, BoundaryMode::Mirror, BoundaryMode::Wrap] {
        for dim in 1..6isize {
            for coord in -20..20isize {
                assert!(apply_boundary_condition(coord, dim, &mode) < dim as usize);
            }
        }
    }
}

#[test]
fn reflect_and_mirror_give_zero_on_sizes_up_to_one() {
    for mode in [BoundaryMode::Reflect, BoundaryMode::Mirror] {
        for dim in [1, 0, -1, -5, isize::MIN] {
            for coord in [isize::MIN, -7, -1, 0, 1, 9, isize::MAX] {
                assert_eq!(apply_boundary_condition(coord, dim, &mode), 0);
            }
        }
    }
}

#[test]
fn wrap_gives_zero_on_an_empty_axis() {
    for coord in [isize::MIN, -7, -1, 0, 1, 9, isize::MAX] {
        assert_eq!(apply_boundary_condition(coord, 0, &BoundaryMode::Wrap), 0);
    }
}

#[test]
fn constant_and_nearest_on_a_size_below_zero() {
    // the size, and the size less one, reinterpreted as an index
    assert_eq!(apply_boundary_condition(2, -3, &BoundaryMode::Constant), (-3isize) as usize);
    assert_eq!(apply_boundary_condition(-2, -3, &BoundaryMode::Constant), usize::MAX - 2);
    assert_eq!(apply_boundary_condition(2, -3, &BoundaryMode::Nearest), (-4isize) as usize);
    assert_eq!(apply_boundary_condition(-2, -3, &BoundaryMode::Nearest), 0);
    assert_eq!(
        apply_boundary_condition(0, isize::MIN, &BoundaryMode::Nearest),
        isize::MAX as usize
    );
}

#[test]
fn wrap_on_a_size_below_zero() {
    // ((coord % size) + size) % size with remainders that keep the sign
    for coord in -12..12isize {
        let expected = (((coord % -5) + -5) % -5) as usize;
        assert_eq!(apply_boundary_condition(coord, -5, &BoundaryMode::Wrap), expected);
    }
    assert_eq!(apply_boundary_condition(3, -5, &BoundaryMode::Wrap), usize::MAX - 1);
    assert_eq!(apply_boundary_condition(-3, -5, &BoundaryMode::Wrap), usize::MAX - 2);
    assert_eq!(apply_boundary_condition(5, -5, &BoundaryMode::Wrap), 0);
    assert_eq!(apply_boundary_condition(7, -1, &BoundaryMode::Wrap), 0);
}

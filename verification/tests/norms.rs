use multirate::adamw::{AdamWEntry, AdamWOp};
use multirate::op::OpError;
use multirate::grid::Grid;
use multirate::norms::{
    compute_diagonal_nuclear_norm, compute_diagonal_sign_gradient, diagonal_nuclear_gradient,
    diagonal_spectral_gradient, frobenius_norm, frobenius_norm_gradient, is_diagonal_matrix,
    FrobeniusNormOp, NuclearNormOp, SpectralNormOp,
};
use multirate::scalar::{Analytic, Scalar};

/// Double precision numbers as the scalars of the library.
#[derive(Clone, Copy, Debug, PartialEq)]
struct Real(f64);

impl Scalar for Real {
    fn spec_sum(self, _rhs: Self) -> Self {
        unreachable!()
    }
    fn spec_diff(self, _rhs: Self) -> Self {
        unreachable!()
    }
    fn spec_prod(self, _rhs: Self) -> Self {
        unreachable!()
    }
    fn spec_quot(self, _rhs: Self) -> Self {
        unreachable!()
    }
    fn spec_of_count(_n: usize) -> Self {
        unreachable!()
    }
    fn spec_is_finite(self) -> bool {
        unreachable!()
    }
    fn spec_reaches(self, _rhs: Self) -> bool {
        unreachable!()
    }
    fn spec_below(self, _rhs: Self) -> bool {
        unreachable!()
    }
    fn spec_exceeds(self, _rhs: Self) -> bool {
        unreachable!()
    }
    fn spec_negated(self) -> Self {
        unreachable!()
    }
    fn sum(self, rhs: Self) -> Self {
        Real(self.0 + rhs.0)
    }
    fn diff(self, rhs: Self) -> Self {
        Real(self.0 - rhs.0)
    }
    fn prod(self, rhs: Self) -> Self {
        Real(self.0 * rhs.0)
    }
    fn quot(self, rhs: Self) -> Self {
        Real(self.0 / rhs.0)
    }
    fn of_count(n: usize) -> Self {
        Real(n as f64)
    }
    fn is_finite(self) -> bool {
        self.0.is_finite()
    }
    fn reaches(self, rhs: Self) -> bool {
        self.0 >= rhs.0
    }
    fn below(self, rhs: Self) -> bool {
        self.0 < rhs.0
    }
    fn exceeds(self, rhs: Self) -> bool {
        self.0 > rhs.0
    }
    fn negated(self) -> Self {
        Real(-self.0)
    }
}

impl Analytic for Real {
    fn spec_sqrt(self) -> Self {
        unreachable!()
    }
    fn spec_abs(self) -> Self {
        unreachable!()
    }
    fn spec_powf(self, _exponent: Self) -> Self {
        unreachable!()
    }
    fn spec_epsilon() -> Self {
        unreachable!()
    }
    fn sqrt(self) -> Self {
        Real(self.0.sqrt())
    }
    fn abs(self) -> Self {
        Real(self.0.abs())
    }
    fn powf(self, exponent: Self) -> Self {
        Real(self.0.powf(exponent.0))
    }
    fn epsilon() -> Self {
        Real(f64::EPSILON)
    }
}

fn matrix(rows: usize, columns: usize, values: &[f64]) -> Grid<Real> {
    Grid::new(vec![rows, columns], values.iter().map(|v| Real(*v)).collect()).unwrap()
}

fn values(grid: &Grid<Real>) -> Vec<f64> {
    grid.samples().iter().map(|v| v.0).collect()
}

#[test]
fn the_norms_have_their_names() {
    assert_eq!(FrobeniusNormOp.name(), "FrobeniusNorm");
    assert_eq!(SpectralNormOp.name(), "SpectralNorm");
    assert_eq!(NuclearNormOp.name(), "NuclearNorm");
}

#[test]
fn the_singular_value_norms_take_matrices_only() {
    assert!(SpectralNormOp.accepts(&[2, 3]));
    assert!(NuclearNormOp.accepts(&[0, 0]));
    for shape in [vec![], vec![4], vec![2, 3, 4]] {
        assert!(!SpectralNormOp.accepts(&shape));
        assert!(!NuclearNormOp.accepts(&shape));
    }
}

#[test]
fn test_frobenius_norm_gradient() {
    // Create test matrix
    let input = matrix(2, 2, &[3.0, 4.0, 0.0, 0.0]);

    // Compute Frobenius norm
    let norm = frobenius_norm(&input);

    // Expected norm: sqrt(3^2 + 4^2) = 5.0
    assert!((norm.0 - 5.0).abs() < 1e-6);

    // Test gradient
    let gradient = frobenius_norm_gradient(&input, Real(1.0));

    // Expected gradient: [3/5, 4/5; 0, 0]
    let expected = [[0.6, 0.8], [0.0, 0.0]];
    for i in 0..2 {
        for j in 0..2 {
            assert!((gradient.entry(i, j).0 - expected[i][j]).abs() < 1e-6);
        }
    }
}

#[test]
fn test_diagonal_nuclear_norm_gradient() {
    // Create diagonal matrix
    let input = matrix(2, 2, &[2.0, 0.0, 0.0, -3.0]);

    // Compute nuclear norm
    let norm = NuclearNormOp.compute(&input).unwrap().unwrap();

    // Expected norm: |2| + |-3| = 5.0
    assert!((norm.0 - 5.0).abs() < 1e-6);

    // Test gradient
    let gradient = diagonal_nuclear_gradient(&input, Real(1.0));

    // Expected gradient: sign(diag) = [1, 0; 0, -1]
    let expected = [[1.0, 0.0], [0.0, -1.0]];
    for i in 0..2 {
        for j in 0..2 {
            assert!((gradient.entry(i, j).0 - expected[i][j]).abs() < 1e-6);
        }
    }
}

#[test]
fn the_sign_gradient_of_a_diagonal_matrix() {
    let input = matrix(2, 2, &[2.0, 0.0, 0.0, -3.0]);
    assert!(is_diagonal_matrix(&input));
    assert_eq!(compute_diagonal_nuclear_norm(&input), Real(5.0));
    assert_eq!(values(&compute_diagonal_sign_gradient(&input)), vec![1.0, 0.0, 0.0, -1.0]);
}

#[test]
fn the_nuclear_norm_refuses_what_is_no_matrix() {
    for shape in [vec![], vec![4], vec![2, 1, 2]] {
        let count = shape.iter().product();
        let input = Grid::new(shape, vec![Real(1.0); count]).unwrap();
        match NuclearNormOp.compute(&input) {
            Err(OpError::IncompatibleShape(text)) => {
                assert_eq!(text, "Nuclear norm requires 2D matrix")
            }
            Ok(_) => panic!("an input that is no matrix was taken"),
        }
        match SpectralNormOp.compute(&input) {
            Err(OpError::IncompatibleShape(text)) => {
                assert_eq!(text, "Spectral norm requires 2D matrix")
            }
            Ok(_) => panic!("an input that is no matrix was taken"),
        }
    }
}

#[test]
fn the_nuclear_norm_leaves_a_general_matrix_open() {
    assert_eq!(NuclearNormOp.compute(&matrix(2, 2, &[1.0, 2.0, 3.0, 4.0])).unwrap(), None);
    assert_eq!(
        NuclearNormOp.compute(&matrix(2, 3, &[1.0, 0.0, 0.0, 0.0, -2.0, 0.0])).unwrap(),
        Some(Real(3.0))
    );
    assert!(SpectralNormOp.compute(&matrix(2, 2, &[1.0, 2.0, 3.0, 4.0])).is_ok());
}

#[test]
fn the_frobenius_operation_computes_the_norm() {
    assert_eq!(FrobeniusNormOp.compute(&matrix(2, 2, &[3.0, 4.0, 0.0, 0.0])).unwrap(), Real(5.0));
}

#[test]
fn the_frobenius_norm_takes_any_shape() {
    let cube = Grid::new(vec![2, 1, 2], vec![Real(1.0), Real(2.0), Real(2.0), Real(4.0)]).unwrap();
    assert_eq!(frobenius_norm(&cube), Real(5.0));
    let none = Grid::new(vec![0, 3], Vec::<Real>::new()).unwrap();
    assert_eq!(frobenius_norm(&none), Real(0.0));
    let scalar = Grid::new(vec![], vec![Real(-3.0)]).unwrap();
    assert_eq!(frobenius_norm(&scalar), Real(3.0));
}

#[test]
fn the_frobenius_gradient_is_scaled_by_the_incoming_gradient() {
    let input = matrix(1, 2, &[3.0, 4.0]);
    let gradient = frobenius_norm_gradient(&input, Real(10.0));
    assert_eq!(gradient.shape(), &[1, 2]);
    assert_eq!(values(&gradient), vec![3.0 / 5.0 * 10.0, 4.0 / 5.0 * 10.0]);
}

#[test]
fn the_frobenius_gradient_of_a_zero_matrix_divides_by_the_bound() {
    let input = matrix(1, 2, &[0.0, 0.0]);
    let gradient = frobenius_norm_gradient(&input, Real(1.0));
    assert_eq!(values(&gradient), vec![0.0, 0.0]);
    // a norm below ten times the machine precision is replaced by that bound
    let tiny = 1e-20;
    let input = matrix(1, 1, &[tiny]);
    let gradient = frobenius_norm_gradient(&input, Real(1.0));
    assert_eq!(values(&gradient), vec![tiny / (f64::EPSILON * 10.0)]);
}

#[test]
fn a_matrix_is_diagonal_up_to_the_machine_precision() {
    assert!(is_diagonal_matrix(&matrix(2, 2, &[1.0, 0.0, 0.0, 2.0])));
    assert!(is_diagonal_matrix(&matrix(2, 2, &[1.0, f64::EPSILON, -f64::EPSILON, 2.0])));
    assert!(!is_diagonal_matrix(&matrix(2, 2, &[1.0, 2.0 * f64::EPSILON, 0.0, 2.0])));
    assert!(!is_diagonal_matrix(&matrix(2, 2, &[1.0, 0.0, -0.5, 2.0])));
    assert!(is_diagonal_matrix(&matrix(2, 3, &[1.0, 0.0, 0.0, 0.0, 2.0, 0.0])));
    assert!(!is_diagonal_matrix(&matrix(2, 3, &[1.0, 0.0, 0.0, 0.0, 2.0, 3.0])));
    assert!(is_diagonal_matrix(&matrix(3, 2, &[1.0, 0.0, 0.0, 2.0, 0.0, 0.0])));
    assert!(!is_diagonal_matrix(&matrix(3, 2, &[1.0, 0.0, 0.0, 2.0, 3.0, 0.0])));
    assert!(is_diagonal_matrix(&matrix(0, 0, &[])));
    assert!(is_diagonal_matrix(&matrix(3, 0, &[])));
}

#[test]
fn the_diagonal_norm_sums_the_magnitudes_of_the_diagonal() {
    assert_eq!(compute_diagonal_nuclear_norm(&matrix(2, 3, &[1.0, 9.0, 9.0, 9.0, -2.0, 9.0])), Real(3.0));
    assert_eq!(compute_diagonal_nuclear_norm(&matrix(3, 2, &[1.0, 9.0, 9.0, -2.0, 9.0, 9.0])), Real(3.0));
    assert_eq!(compute_diagonal_nuclear_norm(&matrix(0, 2, &[])), Real(0.0));
}

#[test]
fn the_sign_gradient_has_the_signs_on_the_diagonal() {
    let gradient = compute_diagonal_sign_gradient(&matrix(2, 3, &[5.0, 9.0, 9.0, 9.0, 0.0, 9.0]));
    assert_eq!(gradient.shape(), &[2, 3]);
    assert_eq!(values(&gradient), vec![1.0, 0.0, 0.0, 0.0, 0.0, 0.0]);
    let gradient = compute_diagonal_sign_gradient(&matrix(3, 2, &[-5.0, 9.0, 9.0, 7.0, 9.0, 9.0]));
    assert_eq!(values(&gradient), vec![-1.0, 0.0, 0.0, 1.0, 0.0, 0.0]);
}

#[test]
fn the_nuclear_gradient_of_a_diagonal_matrix_is_the_signed_incoming_gradient() {
    let gradient = diagonal_nuclear_gradient(&matrix(2, 2, &[2.0, 0.0, 0.0, -3.0]), Real(0.5));
    assert_eq!(values(&gradient), vec![0.5, 0.0, 0.0, -0.5]);
    let gradient = diagonal_nuclear_gradient(&matrix(2, 3, &[0.0, 0.0, 0.0, 0.0, 4.0, 0.0]), Real(2.0));
    assert_eq!(values(&gradient), vec![0.0, 0.0, 0.0, 0.0, 2.0, 0.0]);
}

#[test]
fn the_spectral_gradient_of_a_diagonal_matrix_sits_at_the_leading_sample() {
    let gradient = diagonal_spectral_gradient(&matrix(2, 2, &[2.0, 0.0, 0.0, -3.0]), Real(0.5));
    assert_eq!(values(&gradient), vec![0.0, 0.0, 0.0, 0.5]);
    // of equal magnitudes the first one leads
    let gradient = diagonal_spectral_gradient(&matrix(2, 2, &[-3.0, 0.0, 0.0, 3.0]), Real(1.0));
    assert_eq!(values(&gradient), vec![1.0, 0.0, 0.0, 0.0]);
    // a zero matrix has its gradient at the first sample
    let gradient = diagonal_spectral_gradient(&matrix(2, 3, &[0.0; 6]), Real(1.0));
    assert_eq!(values(&gradient), vec![1.0, 0.0, 0.0, 0.0, 0.0, 0.0]);
    let gradient = diagonal_spectral_gradient(&matrix(3, 2, &[1.0, 0.0, 0.0, 5.0, 0.0, 0.0]), Real(1.0));
    assert_eq!(values(&gradient), vec![0.0, 0.0, 0.0, 1.0, 0.0, 0.0]);
}

// ---- the update rule ----

fn rule() -> AdamWOp<Real> {
    AdamWOp {
        alpha: Real(0.5),
        eps: Real(0.25),
        b1: Real(0.5),
        b2: Real(0.75),
        weight_decay: Real(0.5),
    }
}

#[test]
fn the_moments_follow_the_gradient() {
    // m * b1 + (1 - b1) * g = 2 * 0.5 + 0.5 * 4 = 3
    assert_eq!(rule().first_moment(Real(2.0), Real(4.0)), Real(3.0));
    // v * b2 + (1 - b2) * g * g = 4 * 0.75 + 0.25 * 16 = 7
    assert_eq!(rule().second_moment(Real(4.0), Real(4.0)), Real(7.0));
}

#[test]
fn the_correction_undoes_the_bias_of_a_young_moment() {
    // 1 / (1 - 0.5^1) = 2, 1 / (1 - 0.5^2) = 4 / 3
    assert_eq!(AdamWOp::<Real>::correction(Real(0.5), Real(1.0)), Real(2.0));
    assert_eq!(AdamWOp::<Real>::correction(Real(0.5), Real(2.0)), Real(1.0 / 0.75));
}

#[test]
fn the_direction_divides_by_the_root_of_the_second_moment() {
    // 3 / (sqrt(4) + 0.25)
    assert_eq!(rule().direction(Real(3.0), Real(4.0)), Real(3.0 / 2.25));
}

#[test]
fn the_decay_acts_on_the_parameter_itself() {
    // 8 * (1 - 0.5 * 0.5) - 0.5 * 2 = 5
    assert_eq!(rule().moved(Real(8.0), Real(2.0)), Real(5.0));
    // without a step only the decay is left
    assert_eq!(rule().moved(Real(8.0), Real(0.0)), Real(6.0));
}

#[test]
fn the_first_update_from_rest() {
    // g = 2: m = 1, v = 1; m_hat = 1 * 2 = 2, v_hat = 1 / (1 - 0.75) = 4
    // direction = 2 / (2 + 0.25); param = 8 * 0.75 - 0.5 * direction
    let entry = AdamWEntry { param: Real(8.0), m: Real(0.0), v: Real(0.0) };
    let next = rule().update(entry, Real(2.0), Real(1.0));
    assert_eq!(next.m, Real(1.0));
    assert_eq!(next.v, Real(1.0));
    assert_eq!(next.param, Real(6.0 - 0.5 * (2.0 / 2.25)));
}

// ---- the update of whole inputs ----

fn grid(shape: &[usize], samples: &[f64]) -> Grid<Real> {
    Grid::new(shape.to_vec(), samples.iter().map(|v| Real(*v)).collect()).unwrap()
}

fn scalar(value: f64) -> Grid<Real> {
    grid(&[], &[value])
}

#[test]
fn an_update_needs_five_inputs() {
    for found in 0..5usize {
        let inputs: Vec<Grid<Real>> = (0..found).map(|_| scalar(0.0)).collect();
        match rule().compute(&inputs) {
            Err(OpError::IncompatibleShape(text)) => {
                assert_eq!(text, format!("AdamWOp requires 5 inputs, but got {}", found));
            }
            Ok(_) => panic!("too few inputs were taken"),
        }
    }
}

#[test]
fn an_update_gives_parameter_gradient_moments_and_step_count() {
    let inputs = vec![
        grid(&[2], &[8.0, -8.0]),
        grid(&[2], &[2.0, -2.0]),
        grid(&[2], &[0.0, 0.0]),
        grid(&[2], &[0.0, 0.0]),
        scalar(0.0),
    ];
    let outputs = rule().compute(&inputs).unwrap();
    assert_eq!(outputs.len(), 5);
    let direction = 2.0 / 2.25;
    assert_eq!(outputs[0].shape(), &[2]);
    assert_eq!(values(&outputs[0]), vec![6.0 - 0.5 * direction, -6.0 + 0.5 * direction]);
    assert_eq!(values(&outputs[1]), vec![2.0, -2.0]);
    assert_eq!(values(&outputs[2]), vec![1.0, -1.0]);
    assert_eq!(values(&outputs[3]), vec![1.0, 1.0]);
    assert_eq!(outputs[4].ndim(), 0);
    assert_eq!(values(&outputs[4]), vec![1.0]);
}

#[test]
fn an_update_agrees_with_the_rule_for_one_entry() {
    let inputs = vec![
        grid(&[3], &[1.0, 2.0, 3.0]),
        grid(&[3], &[0.5, -0.25, 4.0]),
        grid(&[3], &[0.1, 0.2, 0.3]),
        grid(&[3], &[0.4, 0.5, 0.6]),
        scalar(6.0),
    ];
    let outputs = rule().compute(&inputs).unwrap();
    for i in 0..3 {
        let entry = AdamWEntry {
            param: inputs[0].samples()[i],
            m: inputs[2].samples()[i],
            v: inputs[3].samples()[i],
        };
        let next = rule().update(entry, inputs[1].samples()[i], Real(7.0));
        assert_eq!(outputs[0].samples()[i], next.param);
        assert_eq!(outputs[2].samples()[i], next.m);
        assert_eq!(outputs[3].samples()[i], next.v);
    }
    assert_eq!(values(&outputs[4]), vec![7.0]);
}

#[test]
fn an_update_spreads_inputs_without_axes_over_the_gradient() {
    let inputs = vec![
        scalar(8.0),
        grid(&[2, 2], &[2.0, 2.0, -2.0, 2.0]),
        scalar(0.0),
        scalar(0.0),
        scalar(0.0),
        scalar(99.0),
    ];
    let outputs = rule().compute(&inputs).unwrap();
    assert_eq!(outputs.len(), 5);
    let direction = 2.0 / 2.25;
    for k in 0..4 {
        assert_eq!(outputs[k].shape(), &[2, 2]);
    }
    let down = 6.0 - 0.5 * direction;
    let up = 6.0 + 0.5 * direction;
    assert_eq!(values(&outputs[0]), vec![down, down, up, down]);
    assert_eq!(values(&outputs[2]), vec![1.0, 1.0, -1.0, 1.0]);
    assert_eq!(values(&outputs[3]), vec![1.0, 1.0, 1.0, 1.0]);
}

#[test]
fn an_update_of_inputs_without_axes_has_no_axes() {
    let inputs = vec![scalar(8.0), scalar(2.0), scalar(0.0), scalar(0.0), scalar(3.0)];
    let outputs = rule().compute(&inputs).unwrap();
    for k in 0..5 {
        assert_eq!(outputs[k].ndim(), 0);
    }
    assert_eq!(values(&outputs[1]), vec![2.0]);
    assert_eq!(values(&outputs[4]), vec![4.0]);
}

#[test]
fn no_gradient_flows_back_through_an_update() {
    let gradients = rule().grad();
    assert_eq!(gradients.len(), 5);
    assert!(gradients.iter().all(|g| g.is_none()));
}

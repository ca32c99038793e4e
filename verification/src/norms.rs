//! The matrix norms that the differentiation graph knows by name.

use vstd::prelude::*;
use vstd::string::StringExecFns;
use crate::grid::{lemma_matrix_position, lemma_volume_zero, Grid};
use crate::op::{is_shape_failure, OpError};
use crate::scalar::{Analytic, Scalar};

verus! {

/// The Frobenius norm: the root of the sum of the squared entries.
#[derive(Clone, Copy, Debug, PartialEq, Eq, Structural)]
pub struct FrobeniusNormOp;

/// The spectral norm: the largest singular value.
#[derive(Clone, Copy, Debug, PartialEq, Eq, Structural)]
pub struct SpectralNormOp;

/// The nuclear norm: the sum of the singular values.
#[derive(Clone, Copy, Debug, PartialEq, Eq, Structural)]
pub struct NuclearNormOp;

impl FrobeniusNormOp {
    /// The name of the operation in a graph.
    pub fn name(&self) -> (name: &'static str)
        ensures
            name@ == "FrobeniusNorm"@,
    {
        "FrobeniusNorm"
    }
}

impl SpectralNormOp {
    /// The name of the operation in a graph.
    pub fn name(&self) -> (name: &'static str)
        ensures
            name@ == "SpectralNorm"@,
    {
        "SpectralNorm"
    }

    /// Whether the operation takes an input of this shape: a matrix.
    pub fn accepts(&self, shape: &[usize]) -> (b: bool)
        ensures
            b == (shape@.len() == 2),
    {
        shape.len() == 2
    }
}

impl NuclearNormOp {
    /// The name of the operation in a graph.
    pub fn name(&self) -> (name: &'static str)
        ensures
            name@ == "NuclearNorm"@,
    {
        "NuclearNorm"
    }

    /// Whether the operation takes an input of this shape: a matrix.
    pub fn accepts(&self, shape: &[usize]) -> (b: bool)
        ensures
            b == (shape@.len() == 2),
    {
        shape.len() == 2
    }
}

/// The sum of the squares of the entries, taken from zero in their order.
pub open spec fn spec_sum_squares<T: Analytic>(x: Seq<T>) -> T
    decreases x.len(),
{
    if x.len() == 0 {
        T::spec_of_count(0)
    } else {
        spec_sum_squares(x.drop_last()).spec_sum(x.last().spec_prod(x.last()))
    }
}

/// The Frobenius norm of a grid of any shape: the root of the sum of the
/// squares of its samples.
pub fn frobenius_norm<T: Analytic>(matrix: &Grid<T>) -> (norm: T)
    ensures
        norm == spec_sum_squares(matrix.spec_samples()).spec_sqrt(),
{
    let samples = matrix.samples();
    let mut sum_squared = T::of_count(0);
    let mut i: usize = 0;
    while i < samples.len()
        invariant
            i <= samples@.len(),
            sum_squared == spec_sum_squares(samples@.take(i as int)),
        decreases samples@.len() - i,
    {
        assert(samples@.take(i + 1).drop_last() =~= samples@.take(i as int));
        sum_squared = sum_squared.sum(samples[i].prod(samples[i]));
        i = i + 1;
    }
    assert(samples@.take(i as int) =~= samples@);
    sum_squared.sqrt()
}

/// The norm by which a gradient divides: the norm itself where it is larger
/// than ten times the machine precision, and that bound otherwise.
pub open spec fn spec_safe_norm<T: Analytic>(norm: T) -> T {
    let bound = T::spec_epsilon().spec_prod(T::spec_of_count(10));
    if norm.spec_exceeds(bound) {
        norm
    } else {
        bound
    }
}

/// The gradient of the Frobenius norm for an incoming gradient `grad_output`:
/// each sample over the safe norm, times `grad_output`.
pub open spec fn spec_frobenius_gradient<T: Analytic>(x: Seq<T>, grad_output: T) -> Seq<T> {
    let norm = spec_safe_norm(spec_sum_squares(x).spec_sqrt());
    Seq::new(x.len(), |i: int| x[i].spec_quot(norm).spec_prod(grad_output))
}

/// The gradient of the Frobenius norm of a grid with respect to its samples,
/// as a grid of the same shape.
pub fn frobenius_norm_gradient<T: Analytic>(matrix: &Grid<T>, grad_output: T) -> (gradient: Grid<
    T,
>)
    requires
        matrix.wf(),
    ensures
        gradient.wf(),
        gradient.spec_shape() == matrix.spec_shape(),
        gradient.spec_samples() == spec_frobenius_gradient(matrix.spec_samples(), grad_output),
{
    let norm = frobenius_norm(matrix);
    let bound = T::epsilon().prod(T::of_count(10));
    let safe_norm = if norm.exceeds(bound) {
        norm
    } else {
        bound
    };
    let samples = matrix.samples();
    let mut out: Vec<T> = Vec::new();
    let mut i: usize = 0;
    while i < samples.len()
        invariant
            i <= samples@.len(),
            out@.len() == i,
            forall|k: int|
                0 <= k < i ==> out@[k] == samples@[k].spec_quot(safe_norm).spec_prod(grad_output),
        decreases samples@.len() - i,
    {
        out.push(samples[i].quot(safe_norm).prod(grad_output));
        i = i + 1;
    }
    assert(out@ =~= spec_frobenius_gradient(matrix.spec_samples(), grad_output));
    matrix.same_shape(out).unwrap()
}

/// Whether the sample at position `p` of a matrix with `columns` columns lies
/// on the diagonal.
pub open spec fn on_diagonal(p: int, columns: int) -> bool {
    p / columns == p % columns
}

/// Whether a matrix is diagonal up to the machine precision: no sample off
/// the diagonal has a magnitude larger than it.
pub open spec fn spec_is_diagonal<T: Analytic>(matrix: &Grid<T>) -> bool {
    forall|p: int|
        0 <= p < matrix.spec_samples().len() && !on_diagonal(p, matrix.spec_shape()[1] as int)
            ==> !(#[trigger] matrix.spec_samples()[p]).spec_abs().spec_exceeds(T::spec_epsilon())
}

/// Whether a matrix is diagonal up to the machine precision.
pub fn is_diagonal_matrix<T: Analytic>(matrix: &Grid<T>) -> (b: bool)
    requires
        matrix.wf(),
        matrix.spec_shape().len() == 2,
    ensures
        b == spec_is_diagonal(matrix),
{
    let samples = matrix.samples();
    let columns = matrix.shape()[1];
    let epsilon = T::epsilon();
    let mut p: usize = 0;
    while p < samples.len()
        invariant
            p <= samples@.len(),
            samples@ == matrix.spec_samples(),
            matrix.wf(),
            matrix.spec_shape().len() == 2,
            columns == matrix.spec_shape()[1],
            epsilon == T::spec_epsilon(),
            forall|k: int|
                0 <= k < p && !on_diagonal(k, columns as int) ==> !(#[trigger] samples@[
                    k
                ]).spec_abs().spec_exceeds(epsilon),
        decreases samples@.len() - p,
    {
        proof {
            if columns == 0 {
                lemma_volume_zero(matrix.spec_shape(), 1);
            }
        }
        if p / columns != p % columns && samples[p].abs().exceeds(epsilon) {
            return false;
        }
        p = p + 1;
    }
    true
}

/// The sum of the magnitudes of the first `count` diagonal samples of a
/// matrix, taken from zero in their order.
pub open spec fn spec_diagonal_sum<T: Analytic>(matrix: &Grid<T>, count: nat) -> T
    decreases count,
{
    if count == 0 {
        T::spec_of_count(0)
    } else {
        let i = (count - 1) as int;
        spec_diagonal_sum(matrix, (count - 1) as nat).spec_sum(
            matrix.spec_samples()[i * matrix.spec_shape()[1] + i].spec_abs(),
        )
    }
}

/// The number of diagonal samples of a matrix: the smaller of its two sizes.
pub open spec fn diagonal_len<T>(matrix: &Grid<T>) -> nat {
    if matrix.spec_shape()[0] <= matrix.spec_shape()[1] {
        matrix.spec_shape()[0] as nat
    } else {
        matrix.spec_shape()[1] as nat
    }
}

/// The nuclear norm of a diagonal matrix: the sum of the magnitudes of its
/// diagonal samples.
pub fn compute_diagonal_nuclear_norm<T: Analytic>(matrix: &Grid<T>) -> (norm: T)
    requires
        matrix.wf(),
        matrix.spec_shape().len() == 2,
    ensures
        norm == spec_diagonal_sum(matrix, diagonal_len(matrix)),
{
    let m = matrix.shape()[0];
    let n = matrix.shape()[1];
    let min_dim = if m <= n {
        m
    } else {
        n
    };
    let mut sum = T::of_count(0);
    let mut i: usize = 0;
    while i < min_dim
        invariant
            i <= min_dim,
            min_dim <= m,
            min_dim <= n,
            matrix.wf(),
            matrix.spec_shape().len() == 2,
            m == matrix.spec_shape()[0],
            n == matrix.spec_shape()[1],
            sum == spec_diagonal_sum(matrix, i as nat),
        decreases min_dim - i,
    {
        sum = sum.sum(matrix.entry(i, i).abs());
        i = i + 1;
    }
    sum
}

/// The sign of a number as a number: one above zero, minus one below zero,
/// and zero otherwise.
pub open spec fn spec_sign<T: Analytic>(x: T) -> T {
    if x.spec_exceeds(T::spec_of_count(0)) {
        T::spec_of_count(1)
    } else if x.spec_below(T::spec_of_count(0)) {
        T::spec_of_count(1).spec_negated()
    } else {
        T::spec_of_count(0)
    }
}

/// The gradient of the nuclear norm of a diagonal matrix: the signs of its
/// diagonal samples on the diagonal, zero elsewhere.
pub open spec fn spec_diagonal_sign<T: Analytic>(matrix: &Grid<T>) -> Seq<T> {
    Seq::new(
        matrix.spec_samples().len(),
        |p: int|
            if on_diagonal(p, matrix.spec_shape()[1] as int) {
                spec_sign(matrix.spec_samples()[p])
            } else {
                T::spec_of_count(0)
            },
    )
}

/// The gradient of the nuclear norm of a diagonal matrix, as a matrix of the
/// same shape.
pub fn compute_diagonal_sign_gradient<T: Analytic>(matrix: &Grid<T>) -> (gradient: Grid<T>)
    requires
        matrix.wf(),
        matrix.spec_shape().len() == 2,
    ensures
        gradient.wf(),
        gradient.spec_shape() == matrix.spec_shape(),
        gradient.spec_samples() == spec_diagonal_sign(matrix),
{
    let samples = matrix.samples();
    let columns = matrix.shape()[1];
    let zero = T::of_count(0);
    let one = T::of_count(1);
    let mut out: Vec<T> = Vec::new();
    let mut p: usize = 0;
    while p < samples.len()
        invariant
            p <= samples@.len(),
            samples@ == matrix.spec_samples(),
            matrix.wf(),
            matrix.spec_shape().len() == 2,
            columns == matrix.spec_shape()[1],
            zero == T::spec_of_count(0),
            one == T::spec_of_count(1),
            out@.len() == p,
            forall|k: int| 0 <= k < p ==> out@[k] == spec_diagonal_sign(matrix)[k],
        decreases samples@.len() - p,
    {
        proof {
            if columns == 0 {
                lemma_volume_zero(matrix.spec_shape(), 1);
            }
        }
        let value = if p / columns == p % columns {
            let diag_val = samples[p];
            if diag_val.exceeds(zero) {
                one
            } else if diag_val.below(zero) {
                one.negated()
            } else {
                zero
            }
        } else {
            zero
        };
        out.push(value);
        p = p + 1;
    }
    assert(out@ =~= spec_diagonal_sign(matrix));
    matrix.same_shape(out).unwrap()
}

/// `g` with the sign of `x`: `g` above zero, `-g` below zero, and zero
/// otherwise.
pub open spec fn spec_signed<T: Analytic>(x: T, g: T) -> T {
    if x.spec_exceeds(T::spec_of_count(0)) {
        g
    } else if x.spec_below(T::spec_of_count(0)) {
        g.spec_negated()
    } else {
        T::spec_of_count(0)
    }
}

/// The gradient of the nuclear norm of a diagonal matrix for an incoming
/// gradient `grad_scalar`: on the diagonal `grad_scalar` with the sign of the
/// sample, zero elsewhere.
pub open spec fn spec_diagonal_nuclear_gradient<T: Analytic>(matrix: &Grid<T>, grad_scalar: T)
    -> Seq<T> {
    Seq::new(
        matrix.spec_samples().len(),
        |p: int|
            if on_diagonal(p, matrix.spec_shape()[1] as int) {
                spec_signed(matrix.spec_samples()[p], grad_scalar)
            } else {
                T::spec_of_count(0)
            },
    )
}

/// The gradient of the nuclear norm of a diagonal matrix for an incoming
/// gradient, as a matrix of the same shape.
pub fn diagonal_nuclear_gradient<T: Analytic>(matrix: &Grid<T>, grad_scalar: T) -> (gradient: Grid<
    T,
>)
    requires
        matrix.wf(),
        matrix.spec_shape().len() == 2,
    ensures
        gradient.wf(),
        gradient.spec_shape() == matrix.spec_shape(),
        gradient.spec_samples() == spec_diagonal_nuclear_gradient(matrix, grad_scalar),
{
    let samples = matrix.samples();
    let columns = matrix.shape()[1];
    let zero = T::of_count(0);
    let mut out: Vec<T> = Vec::new();
    let mut p: usize = 0;
    while p < samples.len()
        invariant
            p <= samples@.len(),
            samples@ == matrix.spec_samples(),
            matrix.wf(),
            matrix.spec_shape().len() == 2,
            columns == matrix.spec_shape()[1],
            zero == T::spec_of_count(0),
            out@.len() == p,
            forall|k: int|
                0 <= k < p ==> out@[k] == spec_diagonal_nuclear_gradient(matrix, grad_scalar)[k],
        decreases samples@.len() - p,
    {
        proof {
            if columns == 0 {
                lemma_volume_zero(matrix.spec_shape(), 1);
            }
        }
        let value = if p / columns == p % columns {
            let diag_val = samples[p];
            if diag_val.exceeds(zero) {
                grad_scalar
            } else if diag_val.below(zero) {
                grad_scalar.negated()
            } else {
                zero
            }
        } else {
            zero
        };
        out.push(value);
        p = p + 1;
    }
    assert(out@ =~= spec_diagonal_nuclear_gradient(matrix, grad_scalar));
    matrix.same_shape(out).unwrap()
}

/// The place and the magnitude of the first largest among the first `count`
/// diagonal samples of a matrix: the first place whose magnitude is larger
/// than every magnitude before it and than zero, and place zero with
/// magnitude zero where there is none.
pub open spec fn spec_leading<T: Analytic>(matrix: &Grid<T>, count: nat) -> (nat, T)
    decreases count,
{
    if count == 0 {
        (0, T::spec_of_count(0))
    } else {
        let i = (count - 1) as nat;
        let before = spec_leading(matrix, i);
        let here = matrix.spec_samples()[i * matrix.spec_shape()[1] + i].spec_abs();
        if here.spec_exceeds(before.1) {
            (i, here)
        } else {
            before
        }
    }
}

/// The gradient of the spectral norm of a diagonal matrix for an incoming
/// gradient `grad_scalar`: `grad_scalar` at the leading diagonal sample, zero
/// elsewhere.
pub open spec fn spec_diagonal_spectral_gradient<T: Analytic>(matrix: &Grid<T>, grad_scalar: T)
    -> Seq<T> {
    let place = spec_leading(matrix, diagonal_len(matrix)).0;
    Seq::new(
        matrix.spec_samples().len(),
        |p: int|
            if p == place * matrix.spec_shape()[1] + place {
                grad_scalar
            } else {
                T::spec_of_count(0)
            },
    )
}

/// The gradient of the spectral norm of a diagonal matrix for an incoming
/// gradient, as a matrix of the same shape. The matrix has at least one
/// sample.
pub fn diagonal_spectral_gradient<T: Analytic>(matrix: &Grid<T>, grad_scalar: T) -> (gradient:
    Grid<T>)
    requires
        matrix.wf(),
        matrix.spec_shape().len() == 2,
        matrix.spec_shape()[0] >= 1,
        matrix.spec_shape()[1] >= 1,
    ensures
        gradient.wf(),
        gradient.spec_shape() == matrix.spec_shape(),
        gradient.spec_samples() == spec_diagonal_spectral_gradient(matrix, grad_scalar),
{
    let m = matrix.shape()[0];
    let n = matrix.shape()[1];
    let min_dim = if m <= n {
        m
    } else {
        n
    };
    let zero = T::of_count(0);
    let mut max_idx: usize = 0;
    let mut max_val = zero;
    let mut i: usize = 0;
    while i < min_dim
        invariant
            i <= min_dim,
            min_dim <= m,
            min_dim <= n,
            1 <= min_dim,
            matrix.wf(),
            matrix.spec_shape().len() == 2,
            m == matrix.spec_shape()[0],
            n == matrix.spec_shape()[1],
            max_idx < min_dim,
            (max_idx as nat, max_val) == spec_leading(matrix, i as nat),
        decreases min_dim - i,
    {
        let abs_val = matrix.entry(i, i).abs();
        if abs_val.exceeds(max_val) {
            max_val = abs_val;
            max_idx = i;
        }
        i = i + 1;
    }
    let samples = matrix.samples();
    let count: usize = samples.len();
    proof {
        lemma_matrix_position(matrix.spec_shape(), max_idx, max_idx);
        assert(max_idx * n + max_idx < count);
        assert(max_idx * n <= max_idx * n + max_idx);
    }
    let place = max_idx * n + max_idx;
    let mut out: Vec<T> = Vec::new();
    let mut p: usize = 0;
    while p < samples.len()
        invariant
            p <= samples@.len(),
            samples@ == matrix.spec_samples(),
            zero == T::spec_of_count(0),
            out@.len() == p,
            forall|k: int| 0 <= k < p ==> out@[k] == if k == place {
                grad_scalar
            } else {
                zero
            },
        decreases samples@.len() - p,
    {
        out.push(if p == place {
            grad_scalar
        } else {
            zero
        });
        p = p + 1;
    }
    assert(out@ =~= spec_diagonal_spectral_gradient(matrix, grad_scalar));
    matrix.same_shape(out).unwrap()
}

impl FrobeniusNormOp {
    /// The Frobenius norm of the input, which may have any shape.
    pub fn compute<T: Analytic>(&self, input: &Grid<T>) -> (r: Result<T, OpError>)
        ensures
            r == Ok::<T, OpError>(spec_sum_squares(input.spec_samples()).spec_sqrt()),
    {
        Ok(frobenius_norm(input))
    }
}

impl SpectralNormOp {
    /// Takes the input of the operation. Anything but a matrix is refused.
    /// The norm of a matrix is its largest singular value, which is found by
    /// power iteration on the matrix that is accepted here.
    pub fn compute<T: Analytic>(&self, input: &Grid<T>) -> (r: Result<(), OpError>)
        ensures
            input.spec_shape().len() == 2 ==> r is Ok,
            input.spec_shape().len() != 2 ==> is_shape_failure(
                r,
                "Spectral norm requires 2D matrix"@,
            ),
    {
        if !self.accepts(input.shape()) {
            return Err(
                OpError::IncompatibleShape(String::from_str("Spectral norm requires 2D matrix")),
            );
        }
        Ok(())
    }
}

impl NuclearNormOp {
    /// The nuclear norm of the input. Anything but a matrix is refused. A
    /// diagonal matrix has the sum of the magnitudes of its diagonal; for any
    /// other matrix there is no answer here, and its singular values are
    /// found by power iteration.
    pub fn compute<T: Analytic>(&self, input: &Grid<T>) -> (r: Result<Option<T>, OpError>)
        requires
            input.wf(),
        ensures
            input.spec_shape().len() != 2 ==> is_shape_failure(
                r,
                "Nuclear norm requires 2D matrix"@,
            ),
            input.spec_shape().len() == 2 && spec_is_diagonal(input) ==> r == Ok::<
                Option<T>,
                OpError,
            >(Some(spec_diagonal_sum(input, diagonal_len(input)))),
            input.spec_shape().len() == 2 && !spec_is_diagonal(input) ==> r == Ok::<
                Option<T>,
                OpError,
            >(None),
    {
        if !self.accepts(input.shape()) {
            return Err(
                OpError::IncompatibleShape(String::from_str("Nuclear norm requires 2D matrix")),
            );
        }
        if is_diagonal_matrix(input) {
            return Ok(Some(compute_diagonal_nuclear_norm(input)));
        }
        Ok(None)
    }
}

} // verus!

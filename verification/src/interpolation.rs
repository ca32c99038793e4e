//! Coordinates between the samples of a grid: how a real coordinate is
//! brought back onto an axis, and the weights with which the samples around it
//! are blended.

use vstd::prelude::*;
use crate::boundary::{apply_boundary_condition, boundary_index, BoundaryMode};
use crate::grid::Grid;
use crate::scalar::Scalar;

verus! {

/// A number that can be a coordinate on an axis: it can be rounded and
/// turned into a count. As with the arithmetic, each operation is a function
/// of its operands.
pub trait Coordinate: Scalar {
    /// The largest whole number that is not larger.
    spec fn spec_floor(self) -> Self;

    /// The count that the number stands for, if it stands for one: it is not
    /// negative, not too large for a count and a number at all.
    spec fn spec_to_count(self) -> Option<usize>;

    /// The nearest whole number.
    spec fn spec_round(self) -> Self;

    /// The signed whole number that the number stands for, if it stands for
    /// one.
    spec fn spec_to_offset(self) -> Option<isize>;

    /// The largest whole number that is not larger.
    fn floor(self) -> (r: Self)
        ensures
            r == self.spec_floor(),
    ;

    /// The count that the number stands for, if it stands for one.
    fn to_count(self) -> (r: Option<usize>)
        ensures
            r == self.spec_to_count(),
    ;

    /// The nearest whole number.
    fn round(self) -> (r: Self)
        ensures
            r == self.spec_round(),
    ;

    /// The signed whole number that the number stands for, if it stands for
    /// one.
    fn to_offset(self) -> (r: Option<isize>)
        ensures
            r == self.spec_to_offset(),
    ;
}

/// Error of an image operation.
#[derive(Debug)]
pub enum NdimageError {
    /// A coordinate could not be interpolated.
    InterpolationError(String),
}

/// `format!` with the `Debug` form of a coordinate: the text of a coordinate
/// that lies off an axis of `size` samples under the constant mode. Nothing is
/// claimed of the text.
#[verifier::external_body]
fn off_axis_text<T: std::fmt::Debug>(coord: &T, size: usize) -> (text: String) {
    format!("Coordinate {:?} out of bounds for size {} with constant mode", coord, size)
}

/// Whether a coordinate lies on an axis of `size` samples: it is at least
/// zero and smaller than `size`.
pub open spec fn on_axis<T: Coordinate>(coord: T, size: usize) -> bool {
    coord.spec_reaches(T::spec_of_count(0)) && coord.spec_below(T::spec_of_count(size))
}

/// The coordinate that `mode` puts in the place of `coord` on an axis of
/// `size` samples, where there is one.
///
/// A coordinate on the axis is kept. Off the axis, `Constant` has no
/// coordinate to give; `Nearest` gives zero below the axis and `size - 1`
/// otherwise; the folding and wrapping modes give zero.
pub open spec fn spec_handle_boundary<T: Coordinate>(coord: T, size: usize, mode: BoundaryMode)
    -> Option<T> {
    if on_axis(coord, size) {
        Some(coord)
    } else {
        match mode {
            BoundaryMode::Constant => None,
            BoundaryMode::Nearest => if coord.spec_below(T::spec_of_count(0)) {
                Some(T::spec_of_count(0))
            } else {
                Some(T::spec_of_count(size).spec_diff(T::spec_of_count(1)))
            },
            _ => Some(T::spec_of_count(0)),
        }
    }
}

/// Handles a coordinate that may lie off an axis of `size` samples according
/// to the boundary mode. Under `Constant` a coordinate off the axis is an
/// interpolation error, so that the caller can put the fill value in its
/// place.
pub fn handle_boundary<T: Coordinate + std::fmt::Debug>(
    coord: T,
    size: usize,
    mode: BoundaryMode,
) -> (r: Result<T, NdimageError>)
    ensures
        match spec_handle_boundary(coord, size, mode) {
            Some(c) => r is Ok && r->Ok_0 == c,
            None => r is Err && r->Err_0 is InterpolationError,
        },
{
    let size_t = T::of_count(size);
    if coord.reaches(T::of_count(0)) && coord.below(size_t) {
        return Ok(coord);
    }
    match mode {
        BoundaryMode::Constant => Err(
            NdimageError::InterpolationError(off_axis_text(&coord, size)),
        ),
        BoundaryMode::Nearest => {
            if coord.below(T::of_count(0)) {
                Ok(T::of_count(0))
            } else {
                Ok(size_t.diff(T::of_count(1)))
            }
        },
        BoundaryMode::Reflect => Ok(T::of_count(0)),
        BoundaryMode::Mirror => Ok(T::of_count(0)),
        BoundaryMode::Wrap => Ok(T::of_count(0)),
    }
}

/// The index of the sample at or below `x`, where `x` has one.
pub open spec fn spec_cell<T: Coordinate>(x: T) -> Option<usize> {
    x.spec_floor().spec_to_count()
}

/// Where `x` lies between the sample below it and the next: zero at the
/// sample below, towards one at the next.
pub open spec fn spec_offset<T: Coordinate>(x: T) -> T {
    x.spec_diff(x.spec_floor())
}

/// The weights for linear interpolation at `x`: the index of the sample on
/// the left, the index of the sample on the right, and the weight of the one
/// on the right.
pub fn linear_weights<T: Coordinate>(x: T) -> (r: (usize, usize, T))
    requires
        spec_cell(x) is Some,
        spec_cell(x)->Some_0 < usize::MAX,
    ensures
        r.0 == spec_cell(x)->Some_0,
        r.1 == r.0 + 1,
        r.2 == spec_offset(x),
{
    let x_floor = x.floor();
    let x_int = x_floor.to_count().unwrap();
    let t = x.diff(x_floor);
    (x_int, x_int + 1, t)
}

/// The four Catmull-Rom weights at the offset `t` between two samples, for
/// the sample before the left one, the left one, the right one and the one
/// after it:
/// `(-t^3 + 2 t^2 - t) / 2`, `(3 t^3 - 5 t^2 + 2) / 2`,
/// `(-3 t^3 + 4 t^2 + t) / 2` and `(t^3 - t^2) / 2`.
pub open spec fn spec_catmull_rom<T: Coordinate>(t: T) -> Seq<T> {
    let t2 = t.spec_prod(t);
    let t3 = t2.spec_prod(t);
    let half = T::spec_of_count(1).spec_quot(T::spec_of_count(2));
    let two = T::spec_of_count(2);
    let three = T::spec_of_count(3);
    let four = T::spec_of_count(4);
    let five = T::spec_of_count(5);
    seq![
        half.spec_prod(t3.spec_negated().spec_sum(two.spec_prod(t2)).spec_diff(t)),
        half.spec_prod(three.spec_prod(t3).spec_diff(five.spec_prod(t2)).spec_sum(two)),
        half.spec_prod(
            three.spec_negated().spec_prod(t3).spec_sum(four.spec_prod(t2)).spec_sum(t),
        ),
        half.spec_prod(t3.spec_diff(t2)),
    ]
}

/// The weights for cubic interpolation at `x`: the index of the first of the
/// four samples, which is one before the sample below `x` where there is one,
/// and the Catmull-Rom weights of the four.
pub fn cubic_weights<T: Coordinate>(x: T) -> (r: (usize, [T; 4]))
    requires
        spec_cell(x) is Some,
    ensures
        r.0 == if spec_cell(x)->Some_0 > 0 {
            (spec_cell(x)->Some_0 - 1) as usize
        } else {
            0
        },
        r.1@ == spec_catmull_rom(spec_offset(x)),
{
    let x_floor = x.floor();
    let x_int = x_floor.to_count().unwrap();
    let t = x.diff(x_floor);
    let t2 = t.prod(t);
    let t3 = t2.prod(t);
    let half = T::of_count(1).quot(T::of_count(2));
    let two = T::of_count(2);
    let three = T::of_count(3);
    let four = T::of_count(4);
    let five = T::of_count(5);
    let w0 = half.prod(t3.negated().sum(two.prod(t2)).diff(t));
    let w1 = half.prod(three.prod(t3).diff(five.prod(t2)).sum(two));
    let w2 = half.prod(three.negated().prod(t3).sum(four.prod(t2)).sum(t));
    let w3 = half.prod(t3.diff(t2));
    let weights = [w0, w1, w2, w3];
    assert(weights@ =~= spec_catmull_rom(spec_offset(x)));
    let start_idx = if x_int > 0 {
        x_int - 1
    } else {
        0
    };
    (start_idx, weights)
}

/// The signed whole number that `x` stands for, and zero where it stands for
/// none.
pub open spec fn spec_whole<T: Coordinate>(x: T) -> isize {
    match x.spec_to_offset() {
        Some(v) => v,
        None => 0,
    }
}

/// The signed whole number that `x` stands for, and zero where it stands for
/// none.
fn whole<T: Coordinate>(x: T) -> (v: isize)
    ensures
        v == spec_whole(x),
{
    match x.to_offset() {
        Some(v) => v,
        None => 0,
    }
}

/// The sample that the folded coordinates name on a grid, and `fill` where
/// they name none. `whole` holds one signed coordinate for each entry; entry
/// `i` is folded onto axis `i` by `mode`.
pub open spec fn spec_sample_at<T>(grid: &Grid<T>, whole: Seq<isize>, mode: BoundaryMode, fill: T)
    -> T {
    let index = Seq::new(
        whole.len(),
        |i: int| boundary_index(whole[i] as int, grid.spec_shape()[i] as int, mode) as usize,
    );
    match grid.spec_get(index) {
        Some(sample) => sample,
        None => fill,
    }
}

/// The sample that the folded coordinates name on a grid, and `fill` where
/// they name none.
fn sample_at<T: Copy>(grid: &Grid<T>, whole: &[isize], mode: &BoundaryMode, fill: T) -> (r: T)
    requires
        grid.wf(),
        whole@.len() <= grid.spec_shape().len(),
        forall|i: int| 0 <= i < grid.spec_shape().len() ==> grid.spec_shape()[i] <= isize::MAX,
    ensures
        r == spec_sample_at(grid, whole@, *mode, fill),
{
    let ghost target = Seq::new(
        whole@.len(),
        |i: int| boundary_index(whole@[i] as int, grid.spec_shape()[i] as int, *mode) as usize,
    );
    let mut index: Vec<usize> = Vec::new();
    let mut i: usize = 0;
    while i < whole.len()
        invariant
            i <= whole@.len() <= grid.spec_shape().len(),
            forall|k: int| 0 <= k < grid.spec_shape().len() ==> grid.spec_shape()[k] <= isize::MAX,
            index@.len() == i,
            target.len() == whole@.len(),
            forall|k: int|
                0 <= k < whole@.len() ==> target[k] == boundary_index(
                    whole@[k] as int,
                    grid.spec_shape()[k] as int,
                    *mode,
                ) as usize,
            forall|k: int| 0 <= k < i ==> index@[k] == target[k],
        decreases whole@.len() - i,
    {
        let size = grid.shape()[i];
        index.push(apply_boundary_condition(whole[i], size as isize, mode));
        i = i + 1;
    }
    assert(index@ =~= target);
    match grid.get(index.as_slice()) {
        Some(sample) => *sample,
        None => fill,
    }
}

/// The nearest whole coordinates of `coords`.
pub open spec fn spec_nearest<T: Coordinate>(coords: Seq<T>) -> Seq<isize> {
    Seq::new(coords.len(), |i: int| spec_whole(coords[i].spec_round()))
}

/// Nearest neighbor interpolation: the sample of the grid at the nearest
/// whole coordinates, each folded onto its axis by the boundary mode, and
/// `const_val` where that names no sample.
pub fn interpolate_nearest<T: Coordinate>(
    input: &Grid<T>,
    coords: &[T],
    boundary: &BoundaryMode,
    const_val: T,
) -> (r: T)
    requires
        input.wf(),
        coords@.len() <= input.spec_shape().len(),
        forall|i: int| 0 <= i < input.spec_shape().len() ==> input.spec_shape()[i] <= isize::MAX,
    ensures
        r == spec_sample_at(input, spec_nearest(coords@), *boundary, const_val),
{
    let mut int_coords: Vec<isize> = Vec::new();
    let mut i: usize = 0;
    while i < coords.len()
        invariant
            i <= coords@.len(),
            int_coords@.len() == i,
            forall|k: int| 0 <= k < i ==> int_coords@[k] == spec_nearest(coords@)[k],
        decreases coords@.len() - i,
    {
        int_coords.push(whole(coords[i].round()));
        i = i + 1;
    }
    assert(int_coords@ =~= spec_nearest(coords@));
    sample_at(input, int_coords.as_slice(), boundary, const_val)
}

/// The blend of two samples at the offset `d` between them:
/// `v0 * (1 - d) + v1 * d`.
pub open spec fn spec_blend<T: Coordinate>(v0: T, v1: T, d: T) -> T {
    v0.spec_prod(T::spec_of_count(1).spec_diff(d)).spec_sum(v1.spec_prod(d))
}

/// The blend of two samples at the offset `d` between them.
fn blend<T: Coordinate>(v0: T, v1: T, d: T) -> (r: T)
    ensures
        r == spec_blend(v0, v1, d),
{
    v0.prod(T::of_count(1).diff(d)).sum(v1.prod(d))
}

/// Whether a signed coordinate lies off an axis of `size` samples.
pub open spec fn off_axis(coord: isize, size: usize) -> bool {
    coord < 0 || coord >= size
}

/// Linear interpolation.
///
/// With one coordinate, the two samples around it are blended at its offset
/// between them. With two, the four samples around it are blended along the
/// second axis and the two results along the first. Each sample is read at
/// its whole coordinates folded onto the axes by `mode`, and is `fill` where
/// that names no sample; under `Constant` the result is `fill` as soon as one
/// of the whole coordinates lies off its axis. With no coordinate the result
/// is `fill`, and with more than two it is the nearest sample.
pub open spec fn spec_interpolate_linear<T: Coordinate>(
    grid: &Grid<T>,
    coords: Seq<T>,
    mode: BoundaryMode,
    fill: T,
) -> T {
    let one = T::spec_of_count(1);
    if coords.len() == 0 {
        fill
    } else if coords.len() == 1 {
        let x0 = coords[0].spec_floor();
        let i0 = spec_whole(x0);
        let i1 = spec_whole(x0.spec_sum(one));
        let size = grid.spec_shape()[0];
        if mode is Constant && (off_axis(i0, size) || off_axis(i1, size)) {
            fill
        } else {
            spec_blend(
                spec_sample_at(grid, seq![i0], mode, fill),
                spec_sample_at(grid, seq![i1], mode, fill),
                coords[0].spec_diff(x0),
            )
        }
    } else if coords.len() == 2 {
        let x0 = coords[0].spec_floor();
        let y0 = coords[1].spec_floor();
        let i0 = spec_whole(x0);
        let i1 = spec_whole(x0.spec_sum(one));
        let j0 = spec_whole(y0);
        let j1 = spec_whole(y0.spec_sum(one));
        let rows = grid.spec_shape()[0];
        let columns = grid.spec_shape()[1];
        if mode is Constant && (off_axis(i0, rows) || off_axis(i1, rows) || off_axis(j0, columns)
            || off_axis(j1, columns)) {
            fill
        } else {
            let dy = coords[1].spec_diff(y0);
            spec_blend(
                spec_blend(
                    spec_sample_at(grid, seq![i0, j0], mode, fill),
                    spec_sample_at(grid, seq![i0, j1], mode, fill),
                    dy,
                ),
                spec_blend(
                    spec_sample_at(grid, seq![i1, j0], mode, fill),
                    spec_sample_at(grid, seq![i1, j1], mode, fill),
                    dy,
                ),
                coords[0].spec_diff(x0),
            )
        }
    } else {
        spec_sample_at(grid, spec_nearest(coords), mode, fill)
    }
}

/// With three coordinates or more the linear scheme gives the very value of
/// the nearest-neighbor scheme: the two agree above two axes.
pub proof fn lemma_linear_is_nearest_above_two_axes<T: Coordinate>(
    grid: &Grid<T>,
    coords: Seq<T>,
    mode: BoundaryMode,
    fill: T,
)
    requires
        coords.len() >= 3,
    ensures
        spec_interpolate_linear(grid, coords, mode, fill) == spec_sample_at(
            grid,
            spec_nearest(coords),
            mode,
            fill,
        ),
{
}

/// The sample at one folded coordinate.
fn sample_1d<T: Coordinate>(grid: &Grid<T>, i: isize, mode: &BoundaryMode, fill: T) -> (r: T)
    requires
        grid.wf(),
        1 <= grid.spec_shape().len(),
        forall|k: int| 0 <= k < grid.spec_shape().len() ==> grid.spec_shape()[k] <= isize::MAX,
    ensures
        r == spec_sample_at(grid, seq![i], *mode, fill),
{
    let mut whole: Vec<isize> = Vec::new();
    whole.push(i);
    assert(whole@ =~= seq![i]);
    sample_at(grid, whole.as_slice(), mode, fill)
}

/// The sample at two folded coordinates.
fn sample_2d<T: Coordinate>(grid: &Grid<T>, i: isize, j: isize, mode: &BoundaryMode, fill: T) -> (r:
    T)
    requires
        grid.wf(),
        2 <= grid.spec_shape().len(),
        forall|k: int| 0 <= k < grid.spec_shape().len() ==> grid.spec_shape()[k] <= isize::MAX,
    ensures
        r == spec_sample_at(grid, seq![i, j], *mode, fill),
{
    let mut whole: Vec<isize> = Vec::new();
    whole.push(i);
    whole.push(j);
    assert(whole@ =~= seq![i, j]);
    sample_at(grid, whole.as_slice(), mode, fill)
}

/// Whether a signed coordinate lies off an axis of `size` samples.
fn is_off_axis(coord: isize, size: usize) -> (b: bool)
    requires
        size <= isize::MAX,
    ensures
        b == off_axis(coord, size),
{
    coord < 0 || coord >= size as isize
}

/// Linear interpolation on a grid at real coordinates, one for each of the
/// leading axes.
pub fn interpolate_linear<T: Coordinate>(
    input: &Grid<T>,
    coords: &[T],
    boundary: &BoundaryMode,
    const_val: T,
) -> (r: T)
    requires
        input.wf(),
        coords@.len() <= input.spec_shape().len(),
        forall|i: int| 0 <= i < input.spec_shape().len() ==> input.spec_shape()[i] <= isize::MAX,
    ensures
        r == spec_interpolate_linear(input, coords@, *boundary, const_val),
        coords@.len() >= 3 ==> r == spec_sample_at(
            input,
            spec_nearest(coords@),
            *boundary,
            const_val,
        ),
{
    let ndim = coords.len();
    if ndim == 0 {
        return const_val;
    }
    let one = T::of_count(1);
    let constant = match boundary {
        BoundaryMode::Constant => true,
        _ => false,
    };
    if ndim == 1 {
        let x = coords[0];
        let x0 = x.floor();
        let dx = x.diff(x0);
        let i0 = whole(x0);
        let i1 = whole(x0.sum(one));
        let size = input.shape()[0];
        if constant && (is_off_axis(i0, size) || is_off_axis(i1, size)) {
            return const_val;
        }
        let v0 = sample_1d(input, i0, boundary, const_val);
        let v1 = sample_1d(input, i1, boundary, const_val);
        return blend(v0, v1, dx);
    }
    if ndim == 2 {
        let x = coords[0];
        let y = coords[1];
        let x0 = x.floor();
        let y0 = y.floor();
        let dx = x.diff(x0);
        let dy = y.diff(y0);
        let i0 = whole(x0);
        let i1 = whole(x0.sum(one));
        let j0 = whole(y0);
        let j1 = whole(y0.sum(one));
        let rows = input.shape()[0];
        let columns = input.shape()[1];
        if constant && (is_off_axis(i0, rows) || is_off_axis(i1, rows) || is_off_axis(j0, columns)
            || is_off_axis(j1, columns)) {
            return const_val;
        }
        let v00 = sample_2d(input, i0, j0, boundary, const_val);
        let v01 = sample_2d(input, i0, j1, boundary, const_val);
        let v10 = sample_2d(input, i1, j0, boundary, const_val);
        let v11 = sample_2d(input, i1, j1, boundary, const_val);
        let v0 = blend(v00, v01, dy);
        let v1 = blend(v10, v11, dy);
        return blend(v0, v1, dx);
    }
    interpolate_nearest(input, coords, boundary, const_val)
}

} // verus!

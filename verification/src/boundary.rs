//! Folding an out-of-range coordinate back into an axis of a sampled grid.

use vstd::prelude::*;

verus! {

/// How a coordinate that falls outside `[0, dim_size)` is treated.
#[derive(Clone, Copy, Debug, PartialEq, Eq, Structural)]
pub enum BoundaryMode {
    /// Outside the axis there is a constant fill value.
    Constant,
    /// The edge sample is repeated.
    Nearest,
    /// The axis is reflected about the edge of its last sample.
    Reflect,
    /// The axis is reflected about the centre of its last sample.
    Mirror,
    /// The axis repeats periodically.
    Wrap,
}

/// Remainder of `a` by `b` that takes the sign of `a`, as machine division
/// gives it: the remainder of the magnitudes, with the sign of `a`.
pub open spec fn trunc_rem(a: int, b: int) -> int
    recommends
        b != 0,
{
    let divisor = if b >= 0 {
        b
    } else {
        -b
    };
    if a >= 0 {
        a % divisor
    } else {
        -((-a) % divisor)
    }
}

/// The value that a signed machine integer takes when it is reinterpreted as an
/// unsigned index: a negative number lands at the top of the index range.
pub open spec fn as_index(v: int) -> int {
    if v < 0 {
        v + usize::MAX + 1
    } else {
        v
    }
}

/// `Reflect`: samples are mirrored about the outer edge of the axis, so that
/// `-1` meets `0` and `-2` meets `1`. Past the upper end the folded position
/// `2 * dim - coord - 1` is reduced by the remainder that keeps its sign.
pub open spec fn reflect_position(coord: int, dim: int) -> int {
    if dim <= 1 {
        0
    } else if coord < 0 {
        (-coord - 1) % dim
    } else if coord >= dim {
        trunc_rem(2 * dim - coord - 1, dim)
    } else {
        coord
    }
}

/// `Mirror`: samples are mirrored about the centre of the edge sample, with
/// period `2 * (dim - 1)`; a position beyond the last sample is held there.
pub open spec fn mirror_position(coord: int, dim: int) -> int {
    if dim <= 1 {
        0
    } else {
        let period = 2 * (dim - 1);
        let m = if coord < 0 {
            (-coord) % period
        } else if coord >= dim {
            period - ((coord - dim + 1) % period) - 1
        } else {
            coord
        };
        if m < dim - 1 {
            m
        } else {
            dim - 1
        }
    }
}

/// The index that `mode` assigns to `coord` on an axis of `dim` samples.
///
/// Inside `[0, dim)` the coordinate is kept. Outside, `Constant` answers
/// `dim` itself, which no sample has; `Nearest` clamps; `Wrap` reduces modulo
/// `dim`; `Reflect` and `Mirror` fold as described at `reflect_position` and
/// `mirror_position`.
///
/// A size below zero spans no coordinate, so every coordinate lies outside.
/// `Constant` and `Nearest` then answer the size, and the size less one,
/// reinterpreted as an index; `Wrap` adds the size to the signed remainder and
/// takes the signed remainder once more; `Reflect` and `Mirror` answer zero.
pub open spec fn boundary_index(coord: int, dim: int, mode: BoundaryMode) -> int {
    match mode {
        BoundaryMode::Constant => if coord < 0 || coord >= dim {
            as_index(dim)
        } else {
            coord
        },
        BoundaryMode::Nearest => if coord < 0 {
            0
        } else if coord >= dim {
            as_index(dim - 1)
        } else {
            coord
        },
        BoundaryMode::Wrap => if dim == 0 {
            0
        } else if dim > 0 {
            coord % dim
        } else {
            as_index(trunc_rem(trunc_rem(coord, dim) + dim, dim))
        },
        BoundaryMode::Reflect => as_index(reflect_position(coord, dim)),
        BoundaryMode::Mirror => mirror_position(coord, dim),
    }
}

/// The magnitude of a negative coordinate, as an unsigned number.
fn magnitude(coord: isize) -> (m: usize)
    requires
        coord < 0,
    ensures
        m == -coord,
{
    let below: isize = -(coord + 1);
    below as usize + 1
}

/// A signed machine integer reinterpreted as an index.
fn to_index(v: isize) -> (index: usize)
    ensures
        index == as_index(v as int),
{
    if v >= 0 {
        v as usize
    } else {
        let below: isize = -(v + 1);
        usize::MAX - (below as usize)
    }
}

/// Apply a boundary condition to a coordinate of an axis with `dim_size`
/// samples, giving the index to read. The one pair that has no remainder, the
/// smallest coordinate wrapped on a size of minus one, is not taken.
pub fn apply_boundary_condition(coord: isize, dim_size: isize, mode: &BoundaryMode) -> (index: usize)
    requires
        !(*mode is Wrap && coord == isize::MIN && dim_size == -1),
    ensures
        index == boundary_index(coord as int, dim_size as int, *mode),
        0 <= coord < dim_size ==> index == coord,
        dim_size >= 1 && !(*mode is Constant) && !(*mode is Reflect) ==> index < dim_size,
        dim_size <= 1 && (*mode is Reflect || *mode is Mirror) ==> index == 0,
        dim_size == 0 && *mode is Wrap ==> index == 0,
{
    if dim_size < 0 {
        return match mode {
            BoundaryMode::Constant => to_index(dim_size),
            BoundaryMode::Nearest => {
                if coord < 0 {
                    0
                } else if dim_size == isize::MIN {
                    isize::MAX as usize
                } else {
                    to_index(dim_size - 1)
                }
            },
            BoundaryMode::Wrap => {
                let d: usize = magnitude(dim_size);
                let a: usize = if coord >= 0 {
                    (coord as usize) % d
                } else {
                    magnitude(coord) % d
                };
                let sum: usize = if coord >= 0 {
                    d - a
                } else {
                    d + a
                };
                let m: usize = sum % d;
                if m == 0 {
                    0
                } else {
                    usize::MAX - (m - 1)
                }
            },
            BoundaryMode::Reflect => 0,
            BoundaryMode::Mirror => 0,
        };
    }
    let dim: usize = dim_size as usize;
    match mode {
        BoundaryMode::Constant => {
            if coord < 0 || coord >= dim_size {
                dim
            } else {
                coord as usize
            }
        },
        BoundaryMode::Nearest => {
            if coord < 0 {
                0
            } else if coord >= dim_size {
                if dim == 0 {
                    usize::MAX
                } else {
                    dim - 1
                }
            } else {
                coord as usize
            }
        },
        BoundaryMode::Wrap => {
            if dim == 0 {
                0
            } else if coord >= 0 {
                let c: usize = coord as usize;
                proof {
                    if c < dim {
                        vstd::arithmetic::div_mod::lemma_small_mod(c as nat, dim as nat);
                    }
                }
                c % dim
            } else {
                let mag: usize = magnitude(coord);
                let m: usize = mag % dim;
                proof {
                    lemma_wrap_negative(coord as int, dim as int);
                }
                if m == 0 {
                    0
                } else {
                    dim - m
                }
            }
        },
        BoundaryMode::Reflect => {
            if dim <= 1 {
                0
            } else if coord < 0 {
                let below: isize = -(coord + 1);
                (below as usize) % dim
            } else if coord >= dim_size {
                let excess: usize = (coord - dim_size) as usize;
                if excess <= dim - 1 {
                    let v: usize = dim - 1 - excess;
                    proof {
                        vstd::arithmetic::div_mod::lemma_small_mod(v as nat, dim as nat);
                    }
                    v
                } else {
                    let over: usize = excess - (dim - 1);
                    let r: usize = over % dim;
                    if r == 0 {
                        0
                    } else {
                        usize::MAX - (r - 1)
                    }
                }
            } else {
                coord as usize
            }
        },
        BoundaryMode::Mirror => {
            if dim <= 1 {
                0
            } else {
                let last: usize = dim - 1;
                let period: usize = 2 * last;
                let m: usize = if coord < 0 {
                    magnitude(coord) % period
                } else if coord >= dim_size {
                    let k: usize = ((coord - dim_size) as usize + 1) % period;
                    period - k - 1
                } else {
                    coord as usize
                };
                if m < last {
                    m
                } else {
                    last
                }
            }
        },
    }
}

/// For a negative coordinate the mathematical remainder is the complement of
/// the remainder of its magnitude.
proof fn lemma_wrap_negative(coord: int, dim: int)
    requires
        coord < 0,
        dim > 0,
    ensures
        coord % dim == if (-coord) % dim == 0 {
            0
        } else {
            dim - (-coord) % dim
        },
{
    let mag = -coord;
    let q = mag / dim;
    let r = mag % dim;
    vstd::arithmetic::div_mod::lemma_fundamental_div_mod(mag, dim);
    assert(mag == dim * q + r);
    if r == 0 {
        assert(coord == dim * (-q) + 0) by (nonlinear_arith)
            requires
                coord == -(dim * q + r),
                r == 0,
        ;
        vstd::arithmetic::div_mod::lemma_fundamental_div_mod_converse(coord, dim, -q, 0);
    } else {
        assert(coord == dim * (-q - 1) + (dim - r)) by (nonlinear_arith)
            requires
                coord == -(dim * q + r),
        ;
        vstd::arithmetic::div_mod::lemma_fundamental_div_mod_converse(coord, dim, -q - 1, dim - r);
    }
}

} // verus!

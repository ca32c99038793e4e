//! The stepping schemes: how the two partitions of the state are advanced over
//! one macro interval.
//!
//! Every scheme is stated twice: as a mathematical definition over sequences
//! and the arithmetic of the number type, and as the code that computes it.
//! Each function here returns exactly what its definition says.

use vstd::prelude::*;
use crate::method::{pow2, MultirateMethod, ODEMethod};
use crate::scalar::{axpy, refine, spec_axpy, spec_refine, Scalar};
use crate::system::{slope, spec_slope, MultirateSystem, Part};

verus! {

/// The state of a system: its slow and its fast partition.
#[derive(Debug)]
pub struct State<T: Scalar> {
    pub slow: Vec<T>,
    pub fast: Vec<T>,
}

/// A state as the contracts see it.
pub ghost struct StateView<T> {
    pub slow: Seq<T>,
    pub fast: Seq<T>,
}

impl<T: Scalar> View for State<T> {
    type V = StateView<T>;

    open spec fn view(&self) -> StateView<T> {
        StateView { slow: self.slow@, fast: self.fast@ }
    }
}

/// One explicit Euler step of size `h` of the partition `part`, which holds
/// `y`, with the other partition held at `other`.
pub open spec fn spec_euler<T: Scalar, Sys: MultirateSystem<T>>(
    sys: &Sys,
    part: Part,
    t: T,
    y: Seq<T>,
    other: Seq<T>,
    h: T,
) -> Seq<T> {
    spec_axpy(y, h, spec_slope(sys, part, t, y, other))
}

/// One classical Runge-Kutta step of size `h` of the partition `part`, which
/// holds `y`, with the other partition held at `other`: four slopes, at the
/// start, twice at the middle and at the end of the step, weighted by one,
/// two, two and one sixths.
pub open spec fn spec_rk4<T: Scalar, Sys: MultirateSystem<T>>(
    sys: &Sys,
    part: Part,
    t: T,
    y: Seq<T>,
    other: Seq<T>,
    h: T,
) -> Seq<T> {
    let half = h.spec_quot(T::spec_of_count(2));
    let third = h.spec_quot(T::spec_of_count(3));
    let sixth = h.spec_quot(T::spec_of_count(6));
    let middle = t.spec_sum(half);
    let k1 = spec_slope(sys, part, t, y, other);
    let k2 = spec_slope(sys, part, middle, spec_axpy(y, half, k1), other);
    let k3 = spec_slope(sys, part, middle, spec_axpy(y, half, k2), other);
    let k4 = spec_slope(sys, part, t.spec_sum(h), spec_axpy(y, h, k3), other);
    spec_axpy(spec_axpy(spec_axpy(spec_axpy(y, sixth, k1), third, k2), third, k3), sixth, k4)
}

/// One step of size `h` by the single-rate method `method`.
pub open spec fn spec_base_step<T: Scalar, Sys: MultirateSystem<T>>(
    method: ODEMethod,
    sys: &Sys,
    part: Part,
    t: T,
    y: Seq<T>,
    other: Seq<T>,
    h: T,
) -> Seq<T> {
    match method {
        ODEMethod::Euler => spec_euler(sys, part, t, y, other, h),
        ODEMethod::RK4 => spec_rk4(sys, part, t, y, other, h),
    }
}

/// One explicit Euler step of one partition.
pub fn euler_step<T: Scalar, Sys: MultirateSystem<T>>(
    sys: &Sys,
    part: Part,
    t: T,
    y: &[T],
    other: &[T],
    h: T,
) -> (r: Vec<T>)
    ensures
        r@ == spec_euler(sys, part, t, y@, other@, h),
        r@.len() == y@.len(),
{
    let k1 = slope(sys, part, t, y, other);
    axpy(y, h, k1.as_slice())
}

/// One classical Runge-Kutta step of one partition.
pub fn rk4_step<T: Scalar, Sys: MultirateSystem<T>>(
    sys: &Sys,
    part: Part,
    t: T,
    y: &[T],
    other: &[T],
    h: T,
) -> (r: Vec<T>)
    ensures
        r@ == spec_rk4(sys, part, t, y@, other@, h),
        r@.len() == y@.len(),
{
    let half = h.quot(T::of_count(2));
    let third = h.quot(T::of_count(3));
    let sixth = h.quot(T::of_count(6));
    let middle = t.sum(half);
    let k1 = slope(sys, part, t, y, other);
    let y2 = axpy(y, half, k1.as_slice());
    let k2 = slope(sys, part, middle, y2.as_slice(), other);
    let y3 = axpy(y, half, k2.as_slice());
    let k3 = slope(sys, part, middle, y3.as_slice(), other);
    let y4 = axpy(y, h, k3.as_slice());
    let k4 = slope(sys, part, t.sum(h), y4.as_slice(), other);
    let a1 = axpy(y, sixth, k1.as_slice());
    let a2 = axpy(a1.as_slice(), third, k2.as_slice());
    let a3 = axpy(a2.as_slice(), third, k3.as_slice());
    axpy(a3.as_slice(), sixth, k4.as_slice())
}

/// One step of one partition by the single-rate method `method`.
pub fn base_step<T: Scalar, Sys: MultirateSystem<T>>(
    method: ODEMethod,
    sys: &Sys,
    part: Part,
    t: T,
    y: &[T],
    other: &[T],
    h: T,
) -> (r: Vec<T>)
    ensures
        r@ == spec_base_step(method, sys, part, t, y@, other@, h),
        r@.len() == y@.len(),
{
    match method {
        ODEMethod::Euler => euler_step(sys, part, t, y, other, h),
        ODEMethod::RK4 => rk4_step(sys, part, t, y, other, h),
    }
}

/// The fast partition after `count` Runge-Kutta micro steps of size `h` from
/// time `t`, with the slow partition held at `slow`.
pub open spec fn spec_micro_steps<T: Scalar, Sys: MultirateSystem<T>>(
    sys: &Sys,
    t: T,
    slow: Seq<T>,
    fast: Seq<T>,
    h: T,
    count: nat,
) -> Seq<T>
    decreases count,
{
    if count == 0 {
        fast
    } else {
        spec_micro_steps(
            sys,
            t.spec_sum(h),
            slow,
            spec_rk4(sys, Part::Fast, t, fast, slow, h),
            h,
            (count - 1) as nat,
        )
    }
}

/// Advances the fast partition by `count` Runge-Kutta micro steps of size `h`
/// from time `t`, with the slow partition held at `slow`.
pub fn advance_fast<T: Scalar, Sys: MultirateSystem<T>>(
    sys: &Sys,
    t: T,
    slow: &[T],
    fast: Vec<T>,
    h: T,
    count: usize,
) -> (r: Vec<T>)
    ensures
        r@ == spec_micro_steps(sys, t, slow@, fast@, h, count as nat),
        r@.len() == fast@.len(),
{
    let ghost start = fast@;
    let mut now = t;
    let mut y = fast;
    let mut done: usize = 0;
    while done < count
        invariant
            done <= count,
            y@.len() == start.len(),
            spec_micro_steps(sys, now, slow@, y@, h, (count - done) as nat) == spec_micro_steps(
                sys,
                t,
                slow@,
                start,
                h,
                count as nat,
            ),
        decreases count - done,
    {
        y = rk4_step(sys, Part::Fast, now, y.as_slice(), slow, h);
        now = now.sum(h);
        done = done + 1;
    }
    y
}

/// A copy of the entries of `y`.
fn duplicate<T: Scalar>(y: &[T]) -> (r: Vec<T>)
    ensures
        r@ == y@,
{
    let mut r: Vec<T> = Vec::new();
    let mut i: usize = 0;
    while i < y.len()
        invariant
            i <= y@.len(),
            r@ == y@.subrange(0, i as int),
        decreases y@.len() - i,
    {
        r.push(y[i]);
        assert(r@ =~= y@.subrange(0, i + 1));
        i = i + 1;
    }
    assert(r@ =~= y@);
    r
}

/// One part of a macro interval, of size `h`, from time `t`: the fast
/// partition takes `micro_steps` micro steps of size `h / micro_steps` against
/// the slow partition as it stands at `t`; then the slow partition takes one
/// Runge-Kutta step of size `h` against the fast partition as it stands after
/// those.
pub open spec fn spec_sub_interval<T: Scalar, Sys: MultirateSystem<T>>(
    sys: &Sys,
    t: T,
    state: StateView<T>,
    h: T,
    micro_steps: usize,
) -> StateView<T> {
    let micro = h.spec_quot(T::spec_of_count(micro_steps));
    let fast = spec_micro_steps(sys, t, state.slow, state.fast, micro, micro_steps as nat);
    let slow = spec_rk4(sys, Part::Slow, t, state.slow, fast, h);
    StateView { slow, fast }
}

/// `count` parts of size `h` in a row, from time `t`.
pub open spec fn spec_sub_intervals<T: Scalar, Sys: MultirateSystem<T>>(
    sys: &Sys,
    t: T,
    state: StateView<T>,
    h: T,
    micro_steps: usize,
    count: nat,
) -> StateView<T>
    decreases count,
{
    if count == 0 {
        state
    } else {
        spec_sub_intervals(
            sys,
            t.spec_sum(h),
            spec_sub_interval(sys, t, state, h, micro_steps),
            h,
            micro_steps,
            (count - 1) as nat,
        )
    }
}

/// The explicit multirate Runge-Kutta scheme over a macro interval of size
/// `h` from time `t`: `macro_steps` equal parts, one after the other.
pub open spec fn spec_explicit_mrk<T: Scalar, Sys: MultirateSystem<T>>(
    sys: &Sys,
    t: T,
    state: StateView<T>,
    h: T,
    macro_steps: usize,
    micro_steps: usize,
) -> StateView<T> {
    spec_sub_intervals(
        sys,
        t,
        state,
        h.spec_quot(T::spec_of_count(macro_steps)),
        micro_steps,
        macro_steps as nat,
    )
}

/// Advances the state over a macro interval of size `h` from time `t` by the
/// explicit multirate Runge-Kutta scheme. Both partitions keep their lengths.
pub fn explicit_mrk_step<T: Scalar, Sys: MultirateSystem<T>>(
    sys: &Sys,
    t: T,
    state: &State<T>,
    h: T,
    macro_steps: usize,
    micro_steps: usize,
) -> (r: State<T>)
    ensures
        r@ == spec_explicit_mrk(sys, t, state@, h, macro_steps, micro_steps),
        r@.slow.len() == state@.slow.len(),
        r@.fast.len() == state@.fast.len(),
{
    let part = h.quot(T::of_count(macro_steps));
    let micro = part.quot(T::of_count(micro_steps));
    let mut now = t;
    let mut slow = duplicate(state.slow.as_slice());
    let mut fast = duplicate(state.fast.as_slice());
    let mut done: usize = 0;
    while done < macro_steps
        invariant
            done <= macro_steps,
            micro == part.spec_quot(T::spec_of_count(micro_steps)),
            slow@.len() == state@.slow.len(),
            fast@.len() == state@.fast.len(),
            spec_sub_intervals(
                sys,
                now,
                StateView { slow: slow@, fast: fast@ },
                part,
                micro_steps,
                (macro_steps - done) as nat,
            ) == spec_sub_intervals(sys, t, state@, part, micro_steps, macro_steps as nat),
        decreases macro_steps - done,
    {
        fast = advance_fast(sys, now, slow.as_slice(), fast, micro, micro_steps);
        slow = rk4_step(sys, Part::Slow, now, slow.as_slice(), fast.as_slice(), part);
        now = now.sum(part);
        done = done + 1;
    }
    State { slow, fast }
}

/// The compound fast-slow scheme over a macro interval of size `h` from time
/// `t`: the fast partition crosses the interval by `fast_method` with the slow
/// partition held as it stands at `t`; then the slow partition crosses it by
/// `slow_method` with the fast partition held at its new value.
pub open spec fn spec_compound<T: Scalar, Sys: MultirateSystem<T>>(
    sys: &Sys,
    t: T,
    state: StateView<T>,
    h: T,
    fast_method: ODEMethod,
    slow_method: ODEMethod,
) -> StateView<T> {
    let fast = spec_base_step(fast_method, sys, Part::Fast, t, state.fast, state.slow, h);
    let slow = spec_base_step(slow_method, sys, Part::Slow, t, state.slow, fast, h);
    StateView { slow, fast }
}

/// Advances the state over a macro interval of size `h` from time `t` by the
/// compound fast-slow scheme. Both partitions keep their lengths.
pub fn compound_step<T: Scalar, Sys: MultirateSystem<T>>(
    sys: &Sys,
    t: T,
    state: &State<T>,
    h: T,
    fast_method: ODEMethod,
    slow_method: ODEMethod,
) -> (r: State<T>)
    ensures
        r@ == spec_compound(sys, t, state@, h, fast_method, slow_method),
        r@.slow.len() == state@.slow.len(),
        r@.fast.len() == state@.fast.len(),
{
    let fast = base_step(
        fast_method,
        sys,
        Part::Fast,
        t,
        state.fast.as_slice(),
        state.slow.as_slice(),
        h,
    );
    let slow = base_step(
        slow_method,
        sys,
        Part::Slow,
        t,
        state.slow.as_slice(),
        fast.as_slice(),
        h,
    );
    State { slow, fast }
}

/// Two to the power `j` in the arithmetic of the number type: one, doubled
/// `j` times.
pub open spec fn spec_power_of_two<T: Scalar>(j: nat) -> T
    decreases j,
{
    if j == 0 {
        T::spec_of_count(1)
    } else {
        spec_power_of_two::<T>((j - 1) as nat).spec_prod(T::spec_of_count(2))
    }
}

/// Entry `column` of row `row` of the extrapolation table, for `column` no
/// larger than `row`.
///
/// Row `row` starts with the state that the explicit scheme reaches across
/// the whole macro interval in one part with `base_ratio * 2^row` micro steps.
/// The micro steps are classical Runge-Kutta steps, so the error of that
/// state begins with the fourth power of the micro step size. Each further
/// entry cancels the next power: entry `column` takes the entry to its left
/// and adds the difference between that entry and the one above it, divided
/// by `2^(column + 3) - 1`.
pub open spec fn spec_table<T: Scalar, Sys: MultirateSystem<T>>(
    sys: &Sys,
    t: T,
    state: StateView<T>,
    h: T,
    base_ratio: usize,
    row: nat,
    column: nat,
) -> StateView<T>
    decreases column,
{
    if column == 0 {
        spec_explicit_mrk(sys, t, state, h, 1, (base_ratio * pow2(row)) as usize)
    } else {
        let fine = spec_table(sys, t, state, h, base_ratio, row, (column - 1) as nat);
        let coarse = spec_table(
            sys,
            t,
            state,
            h,
            base_ratio,
            (row - 1) as nat,
            (column - 1) as nat,
        );
        let d = spec_power_of_two::<T>(column + 3).spec_diff(T::spec_of_count(1));
        StateView {
            slow: spec_refine(fine.slow, coarse.slow, d),
            fast: spec_refine(fine.fast, coarse.fast, d),
        }
    }
}

/// The extrapolated scheme over a macro interval of size `h` from time `t`:
/// the last entry of the last row of a table of `levels` rows.
pub open spec fn spec_extrapolated<T: Scalar, Sys: MultirateSystem<T>>(
    sys: &Sys,
    t: T,
    state: StateView<T>,
    h: T,
    base_ratio: usize,
    levels: usize,
) -> StateView<T> {
    if levels == 0 {
        state
    } else {
        spec_table(sys, t, state, h, base_ratio, (levels - 1) as nat, (levels - 1) as nat)
    }
}

/// Advances the state over a macro interval of size `h` from time `t` by the
/// extrapolated scheme. The table is built anew from `state`. Both partitions
/// keep their lengths.
pub fn extrapolated_step<T: Scalar, Sys: MultirateSystem<T>>(
    sys: &Sys,
    t: T,
    state: &State<T>,
    h: T,
    base_ratio: usize,
    levels: usize,
) -> (r: State<T>)
    requires
        forall|k: nat| k < levels ==> base_ratio * #[trigger] pow2(k) <= usize::MAX,
    ensures
        r@ == spec_extrapolated(sys, t, state@, h, base_ratio, levels),
        r@.slow.len() == state@.slow.len(),
        r@.fast.len() == state@.fast.len(),
{
    if levels == 0 {
        return State {
            slow: duplicate(state.slow.as_slice()),
            fast: duplicate(state.fast.as_slice()),
        };
    }
    let mut column: Vec<State<T>> = Vec::new();
    let mut count: usize = base_ratio;
    let mut k: usize = 0;
    assert(base_ratio * pow2(0) == base_ratio) by (nonlinear_arith)
        requires
            pow2(0) == 1,
    ;
    while k < levels
        invariant
            k <= levels,
            column@.len() == k,
            k < levels ==> count == base_ratio * pow2(k as nat),
            forall|n: nat| n < levels ==> base_ratio * #[trigger] pow2(n) <= usize::MAX,
            forall|i: int|
                0 <= i < k ==> {
                    &&& (#[trigger] column@[i])@ == spec_table(
                        sys,
                        t,
                        state@,
                        h,
                        base_ratio,
                        i as nat,
                        0,
                    )
                    &&& column@[i]@.slow.len() == state@.slow.len()
                    &&& column@[i]@.fast.len() == state@.fast.len()
                },
        decreases levels - k,
    {
        let row = explicit_mrk_step(sys, t, state, h, 1, count);
        column.push(row);
        k = k + 1;
        if k < levels {
            assert(pow2(k as nat) == 2 * pow2((k - 1) as nat));
            assert(base_ratio * pow2(k as nat) == 2 * (base_ratio * pow2((k - 1) as nat)))
                by (nonlinear_arith)
                requires
                    pow2(k as nat) == 2 * pow2((k - 1) as nat),
            ;
            count = count * 2;
        }
    }
    let one = T::of_count(1);
    let two = T::of_count(2);
    let mut power = one.prod(two).prod(two).prod(two);
    assert(power == spec_power_of_two::<T>(3)) by {
        reveal_with_fuel(spec_power_of_two, 4);
    }
    let mut j: usize = 1;
    while j < levels
        invariant
            1 <= j <= levels,
            one == T::spec_of_count(1),
            two == T::spec_of_count(2),
            column@.len() == levels - j + 1,
            power == spec_power_of_two::<T>((j + 2) as nat),
            forall|i: int|
                0 <= i < column@.len() ==> {
                    &&& (#[trigger] column@[i])@ == spec_table(
                        sys,
                        t,
                        state@,
                        h,
                        base_ratio,
                        (i + j - 1) as nat,
                        (j - 1) as nat,
                    )
                    &&& column@[i]@.slow.len() == state@.slow.len()
                    &&& column@[i]@.fast.len() == state@.fast.len()
                },
        decreases levels - j,
    {
        power = power.prod(two);
        let d = power.diff(one);
        let mut next: Vec<State<T>> = Vec::new();
        let mut i: usize = 0;
        while i + 1 < column.len()
            invariant
                1 <= j < levels,
                column@.len() == levels - j + 1,
                i + 1 <= column@.len(),
                next@.len() == i,
                d == spec_power_of_two::<T>((j + 3) as nat).spec_diff(T::spec_of_count(1)),
                forall|m: int|
                    0 <= m < column@.len() ==> {
                        &&& (#[trigger] column@[m])@ == spec_table(
                            sys,
                            t,
                            state@,
                            h,
                            base_ratio,
                            (m + j - 1) as nat,
                            (j - 1) as nat,
                        )
                        &&& column@[m]@.slow.len() == state@.slow.len()
                        &&& column@[m]@.fast.len() == state@.fast.len()
                    },
                forall|m: int|
                    0 <= m < i ==> {
                        &&& (#[trigger] next@[m])@ == spec_table(
                            sys,
                            t,
                            state@,
                            h,
                            base_ratio,
                            (m + j) as nat,
                            j as nat,
                        )
                        &&& next@[m]@.slow.len() == state@.slow.len()
                        &&& next@[m]@.fast.len() == state@.fast.len()
                    },
            decreases column@.len() - i,
        {
            let fine = &column[i + 1];
            let coarse = &column[i];
            let entry = State {
                slow: refine(fine.slow.as_slice(), coarse.slow.as_slice(), d),
                fast: refine(fine.fast.as_slice(), coarse.fast.as_slice(), d),
            };
            assert(column@[i + 1]@ == spec_table(
                sys,
                t,
                state@,
                h,
                base_ratio,
                (i + j) as nat,
                (j - 1) as nat,
            ));
            assert(column@[i as int]@ == spec_table(
                sys,
                t,
                state@,
                h,
                base_ratio,
                (i + j - 1) as nat,
                (j - 1) as nat,
            ));
            next.push(entry);
            i = i + 1;
        }
        column = next;
        j = j + 1;
    }
    column.remove(0)
}

/// The state that `method` reaches over a macro interval of size `h` from
/// time `t`.
pub open spec fn spec_step<T: Scalar, Sys: MultirateSystem<T>>(
    sys: &Sys,
    method: MultirateMethod,
    t: T,
    state: StateView<T>,
    h: T,
) -> StateView<T> {
    match method {
        MultirateMethod::ExplicitMRK { macro_steps, micro_steps } => spec_explicit_mrk(
            sys,
            t,
            state,
            h,
            macro_steps,
            micro_steps,
        ),
        MultirateMethod::CompoundFastSlow { fast_method, slow_method } => spec_compound(
            sys,
            t,
            state,
            h,
            fast_method,
            slow_method,
        ),
        MultirateMethod::Extrapolated { base_ratio, levels } => spec_extrapolated(
            sys,
            t,
            state,
            h,
            base_ratio,
            levels,
        ),
    }
}

/// Micro steps keep the length of the fast partition.
pub proof fn lemma_micro_steps_keep_length<T: Scalar, Sys: MultirateSystem<T>>(
    sys: &Sys,
    t: T,
    slow: Seq<T>,
    fast: Seq<T>,
    h: T,
    count: nat,
)
    ensures
        spec_micro_steps(sys, t, slow, fast, h, count).len() == fast.len(),
    decreases count,
{
    if count > 0 {
        lemma_micro_steps_keep_length(
            sys,
            t.spec_sum(h),
            slow,
            spec_rk4(sys, Part::Fast, t, fast, slow, h),
            h,
            (count - 1) as nat,
        );
    }
}

/// The parts of a macro interval keep the lengths of both partitions.
pub proof fn lemma_sub_intervals_keep_lengths<T: Scalar, Sys: MultirateSystem<T>>(
    sys: &Sys,
    t: T,
    state: StateView<T>,
    h: T,
    micro_steps: usize,
    count: nat,
)
    ensures
        spec_sub_intervals(sys, t, state, h, micro_steps, count).slow.len() == state.slow.len(),
        spec_sub_intervals(sys, t, state, h, micro_steps, count).fast.len() == state.fast.len(),
    decreases count,
{
    if count > 0 {
        lemma_micro_steps_keep_length(
            sys,
            t,
            state.slow,
            state.fast,
            h.spec_quot(T::spec_of_count(micro_steps)),
            micro_steps as nat,
        );
        lemma_sub_intervals_keep_lengths(
            sys,
            t.spec_sum(h),
            spec_sub_interval(sys, t, state, h, micro_steps),
            h,
            micro_steps,
            (count - 1) as nat,
        );
    }
}

/// Every entry of the extrapolation table has the lengths of the state that
/// the table starts from.
pub proof fn lemma_table_keeps_lengths<T: Scalar, Sys: MultirateSystem<T>>(
    sys: &Sys,
    t: T,
    state: StateView<T>,
    h: T,
    base_ratio: usize,
    row: nat,
    column: nat,
)
    ensures
        spec_table(sys, t, state, h, base_ratio, row, column).slow.len() == state.slow.len(),
        spec_table(sys, t, state, h, base_ratio, row, column).fast.len() == state.fast.len(),
    decreases column,
{
    if column == 0 {
        lemma_sub_intervals_keep_lengths(
            sys,
            t,
            state,
            h.spec_quot(T::spec_of_count(1)),
            (base_ratio * pow2(row)) as usize,
            1,
        );
    } else {
        lemma_table_keeps_lengths(sys, t, state, h, base_ratio, row, (column - 1) as nat);
    }
}

/// The partitions never change their lengths: whatever the scheme and
/// whatever the system answers, a macro step leaves a state with as many slow
/// and as many fast entries as it found.
pub proof fn lemma_step_keeps_lengths<T: Scalar, Sys: MultirateSystem<T>>(
    sys: &Sys,
    method: MultirateMethod,
    t: T,
    state: StateView<T>,
    h: T,
)
    ensures
        spec_step(sys, method, t, state, h).slow.len() == state.slow.len(),
        spec_step(sys, method, t, state, h).fast.len() == state.fast.len(),
{
    match method {
        MultirateMethod::ExplicitMRK { macro_steps, micro_steps } => {
            lemma_sub_intervals_keep_lengths(
                sys,
                t,
                state,
                h.spec_quot(T::spec_of_count(macro_steps)),
                micro_steps,
                macro_steps as nat,
            );
        },
        MultirateMethod::CompoundFastSlow { .. } => {},
        MultirateMethod::Extrapolated { base_ratio, levels } => {
            if levels > 0 {
                lemma_table_keeps_lengths(
                    sys,
                    t,
                    state,
                    h,
                    base_ratio,
                    (levels - 1) as nat,
                    (levels - 1) as nat,
                );
            }
        },
    }
}

/// Extrapolation with a single level is the explicit scheme: one part with
/// `base_ratio` micro steps, and nothing to combine it with.
pub proof fn lemma_one_level_is_explicit<T: Scalar, Sys: MultirateSystem<T>>(
    sys: &Sys,
    t: T,
    state: StateView<T>,
    h: T,
    base_ratio: usize,
)
    ensures
        spec_extrapolated(sys, t, state, h, base_ratio, 1) == spec_explicit_mrk(
            sys,
            t,
            state,
            h,
            1,
            base_ratio,
        ),
{
    assert(base_ratio * pow2(0) == base_ratio) by (nonlinear_arith)
        requires
            pow2(0) == 1,
    ;
}

/// Advances the state over a macro interval of size `h` from time `t` by the
/// scheme that `method` selects. Both partitions keep their lengths.
pub fn step<T: Scalar, Sys: MultirateSystem<T>>(
    sys: &Sys,
    method: &MultirateMethod,
    t: T,
    state: &State<T>,
    h: T,
) -> (r: State<T>)
    requires
        method.spec_counts_valid(),
    ensures
        r@ == spec_step(sys, *method, t, state@, h),
        r@.slow.len() == state@.slow.len(),
        r@.fast.len() == state@.fast.len(),
{
    match *method {
        MultirateMethod::ExplicitMRK { macro_steps, micro_steps } => explicit_mrk_step(
            sys,
            t,
            state,
            h,
            macro_steps,
            micro_steps,
        ),
        MultirateMethod::CompoundFastSlow { fast_method, slow_method } => compound_step(
            sys,
            t,
            state,
            h,
            fast_method,
            slow_method,
        ),
        MultirateMethod::Extrapolated { base_ratio, levels } => {
            assert forall|k: nat| k < levels implies base_ratio * #[trigger] pow2(k)
                <= usize::MAX by {
                assert(method.micro_steps_at(k) <= usize::MAX);
            }
            extrapolated_step(sys, t, state, h, base_ratio, levels)
        },
    }
}

} // verus!

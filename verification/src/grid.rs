//! A dense grid of samples with any number of axes.

use vstd::prelude::*;

verus! {

/// The number of samples of a grid whose axes have the lengths `shape`.
pub open spec fn volume(shape: Seq<usize>) -> nat
    decreases shape.len(),
{
    if shape.len() == 0 {
        1
    } else {
        volume(shape.drop_last()) * (shape.last() as nat)
    }
}

/// Whether `index` names a sample of a grid of the given shape: it has one
/// entry for each axis, and each entry lies on its axis.
pub open spec fn names_sample(shape: Seq<usize>, index: Seq<usize>) -> bool {
    index.len() == shape.len() && forall|i: int| 0 <= i < index.len() ==> index[i] < shape[i]
}

/// The position of the sample that `index` names among all samples, the last
/// axis running fastest.
pub open spec fn position(shape: Seq<usize>, index: Seq<usize>) -> nat
    decreases index.len(),
{
    if index.len() == 0 {
        0
    } else {
        position(shape.drop_last(), index.drop_last()) * (shape.last() as nat) + (
        index.last() as nat)
    }
}

/// The position of a sample is smaller than the number of samples.
pub proof fn lemma_position_in_volume(shape: Seq<usize>, index: Seq<usize>)
    requires
        names_sample(shape, index),
    ensures
        position(shape, index) < volume(shape),
    decreases index.len(),
{
    if index.len() > 0 {
        let s = shape.drop_last();
        let i = index.drop_last();
        assert(names_sample(s, i)) by {
            assert forall|k: int| 0 <= k < i.len() implies i[k] < s[k] by {
                assert(index[k] < shape[k]);
            }
        }
        lemma_position_in_volume(s, i);
        let p = position(s, i);
        let v = volume(s);
        let d = shape.last() as nat;
        let e = index.last() as nat;
        assert(index[index.len() - 1] < shape[index.len() - 1]);
        assert(p * d + e < v * d) by (nonlinear_arith)
            requires
                p < v,
                e < d,
        ;
    }
}

/// A dense grid of samples: the lengths of its axes and its samples, the last
/// axis running fastest.
pub struct Grid<T> {
    shape: Vec<usize>,
    samples: Vec<T>,
}

impl<T> Grid<T> {
    /// The lengths of the axes.
    pub closed spec fn spec_shape(&self) -> Seq<usize> {
        self.shape@
    }

    /// The samples, the last axis running fastest.
    pub closed spec fn spec_samples(&self) -> Seq<T> {
        self.samples@
    }

    /// There are as many samples as the axes span.
    pub open spec fn wf(&self) -> bool {
        self.spec_samples().len() == volume(self.spec_shape())
    }

    /// The sample that `index` names, if it names one.
    pub open spec fn spec_get(&self, index: Seq<usize>) -> Option<T> {
        if names_sample(self.spec_shape(), index) {
            Some(self.spec_samples()[position(self.spec_shape(), index) as int])
        } else {
            None
        }
    }

    /// A grid of the given shape over the given samples, if there are as many
    /// samples as the axes span.
    pub fn new(shape: Vec<usize>, samples: Vec<T>) -> (r: Option<Grid<T>>)
        ensures
            r is Some <==> samples@.len() == volume(shape@),
            r is Some ==> r->Some_0.spec_shape() == shape@ && r->Some_0.spec_samples() == samples@
                && r->Some_0.wf(),
    {
        let count: usize = samples.len();
        let mut spanned: usize = 1;
        let mut i: usize = 0;
        let mut empty: bool = false;
        // an axis without samples makes the grid empty, however long the others are
        while i < shape.len()
            invariant
                i <= shape@.len(),
                empty <==> exists|k: int| 0 <= k < i && shape@[k] == 0,
            decreases shape@.len() - i,
        {
            if shape[i] == 0 {
                empty = true;
            }
            i = i + 1;
        }
        if empty {
            proof {
                let k = choose|k: int| 0 <= k < shape@.len() && shape@[k] == 0;
                lemma_volume_zero(shape@, k);
            }
            if samples.len() == 0 {
                return Some(Grid { shape, samples });
            } else {
                return None;
            }
        }
        i = 0;
        while i < shape.len()
            invariant
                i <= shape@.len(),
                forall|k: int| 0 <= k < shape@.len() ==> shape@[k] > 0,
                spanned == volume(shape@.take(i as int)),
                count == samples@.len(),
            decreases shape@.len() - i,
        {
            let ghost before = shape@.take(i as int);
            let ghost after = shape@.take(i + 1);
            assert(after.drop_last() =~= before);
            assert(after.last() == shape@[i as int]);
            assert(volume(after) == volume(before) * (shape@[i as int] as nat));
            match spanned.checked_mul(shape[i]) {
                Some(next) => {
                    spanned = next;
                },
                None => {
                    proof {
                        assert(volume(after) > usize::MAX);
                        lemma_volume_grows(shape@, i + 1);
                        assert(volume(shape@) > samples@.len());
                    }
                    return None;
                },
            }
            i = i + 1;
        }
        assert(shape@.take(shape@.len() as int) =~= shape@);
        if spanned == count {
            Some(Grid { shape, samples })
        } else {
            None
        }
    }

    /// A grid of the same shape over other samples, if there are as many of
    /// them.
    pub fn same_shape<U>(&self, samples: Vec<U>) -> (r: Option<Grid<U>>)
        requires
            self.wf(),
        ensures
            r is Some <==> samples@.len() == self.spec_samples().len(),
            r is Some ==> r->Some_0.spec_shape() == self.spec_shape() && r->Some_0.spec_samples()
                == samples@ && r->Some_0.wf(),
    {
        if samples.len() != self.samples.len() {
            return None;
        }
        let mut shape: Vec<usize> = Vec::new();
        let mut i: usize = 0;
        while i < self.shape.len()
            invariant
                i <= self.shape@.len(),
                shape@ == self.shape@.subrange(0, i as int),
            decreases self.shape@.len() - i,
        {
            shape.push(self.shape[i]);
            assert(shape@ =~= self.shape@.subrange(0, i + 1));
            i = i + 1;
        }
        assert(shape@ =~= self.shape@);
        Some(Grid { shape, samples })
    }

    /// The lengths of the axes.
    pub fn shape(&self) -> (shape: &[usize])
        ensures
            shape@ == self.spec_shape(),
    {
        self.shape.as_slice()
    }

    /// The number of axes.
    pub fn ndim(&self) -> (n: usize)
        ensures
            n == self.spec_shape().len(),
    {
        self.shape.len()
    }

    /// The samples, the last axis running fastest.
    pub fn samples(&self) -> (samples: &[T])
        ensures
            samples@ == self.spec_samples(),
    {
        self.samples.as_slice()
    }

    /// The sample in row `i` and column `j` of a grid with two axes.
    pub fn entry(&self, i: usize, j: usize) -> (r: &T)
        requires
            self.wf(),
            self.spec_shape().len() == 2,
            i < self.spec_shape()[0],
            j < self.spec_shape()[1],
        ensures
            self.spec_get(seq![i, j]) == Some(*r),
            *r == self.spec_samples()[i * self.spec_shape()[1] + j],
    {
        let count: usize = self.samples.len();
        let columns: usize = self.shape[1];
        proof {
            lemma_matrix_position(self.shape@, i, j);
            assert(i * columns + j < count);
            assert(i * columns <= i * columns + j);
        }
        &self.samples[i * columns + j]
    }

    /// The sample that `index` names, if it names one.
    pub fn get(&self, index: &[usize]) -> (r: Option<&T>)
        requires
            self.wf(),
        ensures
            match self.spec_get(index@) {
                Some(sample) => r is Some && *r->Some_0 == sample,
                None => r is None,
            },
    {
        if index.len() != self.shape.len() {
            return None;
        }
        let mut i: usize = 0;
        while i < index.len()
            invariant
                i <= index@.len(),
                index@.len() == self.shape@.len(),
                forall|k: int| 0 <= k < i ==> index@[k] < self.shape@[k],
            decreases index@.len() - i,
        {
            if index[i] >= self.shape[i] {
                return None;
            }
            i = i + 1;
        }
        let count: usize = self.samples.len();
        let mut at: usize = 0;
        i = 0;
        while i < index.len()
            invariant
                i <= index@.len(),
                self.wf(),
                count == self.samples@.len(),
                names_sample(self.shape@, index@),
                at == position(self.shape@.take(i as int), index@.take(i as int)),
            decreases index@.len() - i,
        {
            proof {
                let s = self.shape@.take(i + 1);
                let x = index@.take(i + 1);
                assert(s.drop_last() =~= self.shape@.take(i as int));
                assert(x.drop_last() =~= index@.take(i as int));
                assert(names_sample(s, x)) by {
                    assert forall|k: int| 0 <= k < x.len() implies x[k] < s[k] by {
                        assert(index@[k] < self.shape@[k]);
                    }
                }
                lemma_position_in_volume(s, x);
                assert forall|k: int| 0 <= k < self.shape@.len() implies self.shape@[k] > 0 by {
                    assert(index@[k] < self.shape@[k]);
                }
                lemma_volume_grows(self.shape@, i + 1);
                let p = position(self.shape@.take(i as int), index@.take(i as int));
                let d = self.shape@[i as int] as nat;
                let e = index@[i as int] as nat;
                assert(s.last() == self.shape@[i as int]);
                assert(x.last() == index@[i as int]);
                assert(position(s, x) == p * d + e);
                assert(p * d + e < self.samples@.len());
                assert(p * d <= p * d + e);
                assert(at * self.shape@[i as int] == p * d);
            }
            at = at * self.shape[i] + index[i];
            i = i + 1;
        }
        assert(self.shape@.take(i as int) =~= self.shape@);
        assert(index@.take(i as int) =~= index@);
        proof {
            lemma_position_in_volume(self.shape@, index@);
        }
        Some(&self.samples[at])
    }
}

/// On a grid with two axes the sample in row `i` and column `j` is at
/// position `i * columns + j`, and there are `rows * columns` samples.
pub proof fn lemma_matrix_position(shape: Seq<usize>, i: usize, j: usize)
    requires
        shape.len() == 2,
        i < shape[0],
        j < shape[1],
    ensures
        names_sample(shape, seq![i, j]),
        position(shape, seq![i, j]) == i * shape[1] + j,
        volume(shape) == shape[0] * shape[1],
        i * shape[1] + j < shape[0] * shape[1],
{
    let index = seq![i, j];
    assert(index.drop_last() =~= seq![i]);
    assert(shape.drop_last() =~= seq![shape[0]]);
    assert(seq![i].drop_last() =~= Seq::<usize>::empty());
    assert(seq![shape[0]].drop_last() =~= Seq::<usize>::empty());
    reveal_with_fuel(position, 3);
    reveal_with_fuel(volume, 3);
    assert(position(seq![shape[0]], seq![i]) == i) by {
        assert(position(Seq::<usize>::empty(), Seq::<usize>::empty()) == 0);
        assert(0 * (shape[0] as nat) + i == i) by (nonlinear_arith);
    }
    assert(volume(seq![shape[0]]) == shape[0]) by {
        assert(volume(Seq::<usize>::empty()) == 1);
        assert(1 * (shape[0] as nat) == shape[0]) by (nonlinear_arith);
    }
    assert(names_sample(shape, index));
    lemma_position_in_volume(shape, index);
}

/// A grid with an axis without samples has no samples.
pub proof fn lemma_volume_zero(shape: Seq<usize>, k: int)
    requires
        0 <= k < shape.len(),
        shape[k] == 0,
    ensures
        volume(shape) == 0,
    decreases shape.len(),
{
    if k == shape.len() - 1 {
        assert(volume(shape.drop_last()) * 0 == 0) by (nonlinear_arith);
    } else {
        lemma_volume_zero(shape.drop_last(), k);
        assert(0 * (shape.last() as nat) == 0) by (nonlinear_arith);
    }
}

/// Where no axis is without samples, the first `n` axes span no more samples
/// than all of them.
pub proof fn lemma_volume_grows(shape: Seq<usize>, n: int)
    requires
        0 <= n <= shape.len(),
        forall|k: int| 0 <= k < shape.len() ==> shape[k] > 0,
    ensures
        volume(shape.take(n)) <= volume(shape),
    decreases shape.len() - n,
{
    if n == shape.len() {
        assert(shape.take(n) =~= shape);
    } else {
        lemma_volume_grows(shape, n + 1);
        let longer = shape.take(n + 1);
        assert(longer.drop_last() =~= shape.take(n));
        let v = volume(shape.take(n));
        let d = longer.last() as nat;
        assert(v <= v * d) by (nonlinear_arith)
            requires
                d > 0,
        ;
    }
}

} // verus!

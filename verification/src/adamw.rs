//! The AdamW update rule, entry by entry.
//!
//! A parameter is moved against a gradient that is smoothed by two running
//! moments, and shrunk by a weight decay that acts on the parameter itself
//! rather than on the gradient.

use vstd::prelude::*;
use crate::grid::{volume, Grid};
use crate::op::OpError;
use crate::scalar::{Analytic, Scalar};

verus! {

/// What the rule answers when it is handed `found` inputs, which are fewer
/// than the five it takes.
pub uninterp spec fn too_few_inputs_message(found: usize) -> Seq<char>;

/// `format!` on one count: the text that says that five inputs are needed and
/// `found` were given. The text is a function of the count alone.
#[verifier::external_body]
fn too_few_inputs_text(found: usize) -> (text: String)
    ensures
        text@ == too_few_inputs_message(found),
{
    format!("AdamWOp requires 5 inputs, but got {}", found)
}

/// The samples of `x` as they enter an update along a gradient of the given
/// shape: an input without axes is spread over that shape where the gradient
/// has axes, and any other input is taken as it is.
pub open spec fn spec_spread<T>(x: &Grid<T>, shape: Seq<usize>) -> Seq<T> {
    if x.spec_shape().len() == 0 && shape.len() != 0 {
        Seq::new(volume(shape), |i: int| x.spec_samples()[0])
    } else {
        x.spec_samples()
    }
}

/// Whether `x` can enter an update along `grad`: it has no axes, or the shape
/// of the gradient.
pub open spec fn fits_gradient<T>(x: &Grid<T>, grad: &Grid<T>) -> bool {
    x.spec_shape().len() == 0 || x.spec_shape() == grad.spec_shape()
}

/// The samples of `x` as they enter an update along `grad`.
fn spread<T: Analytic>(x: &Grid<T>, grad: &Grid<T>) -> (r: Vec<T>)
    requires
        x.wf(),
        grad.wf(),
        fits_gradient(x, grad),
    ensures
        r@ == spec_spread(x, grad.spec_shape()),
        r@.len() == grad.spec_samples().len(),
{
    let source = x.samples();
    let mut r: Vec<T> = Vec::new();
    if x.ndim() == 0 && grad.ndim() != 0 {
        assert(volume(x.spec_shape()) == 1);
        let value = source[0];
        let count = grad.samples().len();
        let mut i: usize = 0;
        while i < count
            invariant
                i <= count,
                r@.len() == i,
                forall|k: int| 0 <= k < i ==> r@[k] == value,
            decreases count - i,
        {
            r.push(value);
            i = i + 1;
        }
        assert(r@ =~= spec_spread(x, grad.spec_shape()));
    } else {
        let mut i: usize = 0;
        while i < source.len()
            invariant
                i <= source@.len(),
                r@ == source@.subrange(0, i as int),
            decreases source@.len() - i,
        {
            r.push(source[i]);
            assert(r@ =~= source@.subrange(0, i + 1));
            i = i + 1;
        }
        assert(r@ =~= source@);
        assert(x.spec_shape().len() == 0 ==> grad.spec_shape() =~= x.spec_shape());
    }
    r
}

/// The constants of the rule.
#[derive(Clone, Copy, Debug)]
pub struct AdamWOp<T: Analytic> {
    /// The learning rate.
    pub alpha: T,
    /// What is added to the root of the second moment before dividing by it.
    pub eps: T,
    /// How much of the first moment is kept from one update to the next.
    pub b1: T,
    /// How much of the second moment is kept from one update to the next.
    pub b2: T,
    /// How strongly the parameter is shrunk in each update.
    pub weight_decay: T,
}

/// One entry of a parameter together with its two moments.
#[derive(Clone, Copy, Debug)]
pub struct AdamWEntry<T: Analytic> {
    pub param: T,
    pub m: T,
    pub v: T,
}

impl<T: Analytic> AdamWOp<T> {
    /// The first moment after a gradient `g`: `m * b1 + (1 - b1) * g`.
    pub open spec fn spec_first_moment(&self, m: T, g: T) -> T {
        m.spec_prod(self.b1).spec_sum(T::spec_of_count(1).spec_diff(self.b1).spec_prod(g))
    }

    /// The second moment after a gradient `g`: `v * b2 + (1 - b2) * g * g`.
    pub open spec fn spec_second_moment(&self, v: T, g: T) -> T {
        v.spec_prod(self.b2).spec_sum(
            T::spec_of_count(1).spec_diff(self.b2).spec_prod(g).spec_prod(g),
        )
    }

    /// The factor that frees a moment kept at the rate `beta` of its bias
    /// towards zero after `t` updates: `1 / (1 - beta^t)`.
    pub open spec fn spec_correction(beta: T, t: T) -> T {
        T::spec_of_count(1).spec_quot(T::spec_of_count(1).spec_diff(beta.spec_powf(t)))
    }

    /// The step along the corrected moments: `m_hat / (sqrt(v_hat) + eps)`.
    pub open spec fn spec_direction(&self, m_hat: T, v_hat: T) -> T {
        m_hat.spec_quot(v_hat.spec_sqrt().spec_sum(self.eps))
    }

    /// The parameter after decay and step:
    /// `p * (1 - alpha * weight_decay) - alpha * direction`.
    pub open spec fn spec_moved(&self, p: T, direction: T) -> T {
        p.spec_prod(T::spec_of_count(1).spec_diff(self.alpha.spec_prod(self.weight_decay))).spec_diff(
            self.alpha.spec_prod(direction),
        )
    }

    /// One entry after update number `t`, counted from one, along the gradient
    /// `g`. The moments are updated first; the parameter then moves along the
    /// new moments, each freed of its bias.
    pub open spec fn spec_update(&self, entry: AdamWEntry<T>, g: T, t: T) -> AdamWEntry<T> {
        let m = self.spec_first_moment(entry.m, g);
        let v = self.spec_second_moment(entry.v, g);
        let m_hat = m.spec_prod(Self::spec_correction(self.b1, t));
        let v_hat = v.spec_prod(Self::spec_correction(self.b2, t));
        AdamWEntry { param: self.spec_moved(entry.param, self.spec_direction(m_hat, v_hat)), m, v }
    }

    /// The first moment after a gradient `g`.
    pub fn first_moment(&self, m: T, g: T) -> (r: T)
        ensures
            r == self.spec_first_moment(m, g),
    {
        m.prod(self.b1).sum(T::of_count(1).diff(self.b1).prod(g))
    }

    /// The second moment after a gradient `g`.
    pub fn second_moment(&self, v: T, g: T) -> (r: T)
        ensures
            r == self.spec_second_moment(v, g),
    {
        v.prod(self.b2).sum(T::of_count(1).diff(self.b2).prod(g).prod(g))
    }

    /// The factor that frees a moment of its bias after `t` updates.
    pub fn correction(beta: T, t: T) -> (r: T)
        ensures
            r == Self::spec_correction(beta, t),
    {
        T::of_count(1).quot(T::of_count(1).diff(beta.powf(t)))
    }

    /// The step along the corrected moments.
    pub fn direction(&self, m_hat: T, v_hat: T) -> (r: T)
        ensures
            r == self.spec_direction(m_hat, v_hat),
    {
        m_hat.quot(v_hat.sqrt().sum(self.eps))
    }

    /// The parameter after decay and step.
    pub fn moved(&self, p: T, direction: T) -> (r: T)
        ensures
            r == self.spec_moved(p, direction),
    {
        p.prod(T::of_count(1).diff(self.alpha.prod(self.weight_decay))).diff(
            self.alpha.prod(direction),
        )
    }

    /// One entry after update number `t`, counted from one, along the gradient
    /// `g`.
    pub fn update(&self, entry: AdamWEntry<T>, g: T, t: T) -> (r: AdamWEntry<T>)
        ensures
            r == self.spec_update(entry, g, t),
    {
        let m = self.first_moment(entry.m, g);
        let v = self.second_moment(entry.v, g);
        let m_hat = m.prod(Self::correction(self.b1, t));
        let v_hat = v.prod(Self::correction(self.b2, t));
        AdamWEntry { param: self.moved(entry.param, self.direction(m_hat, v_hat)), m, v }
    }
}

impl<T: Analytic> AdamWOp<T> {
    /// Whether five inputs can enter an update: all are well formed, the
    /// step count has no axes, and parameter and moments each have no axes or
    /// the shape of the gradient.
    pub open spec fn takes(inputs: Seq<Grid<T>>) -> bool {
        &&& forall|i: int| 0 <= i < inputs.len() ==> (#[trigger] inputs[i]).wf()
        &&& inputs.len() >= 5 ==> {
            &&& inputs[4].spec_shape().len() == 0
            &&& fits_gradient(&inputs[0], &inputs[1])
            &&& fits_gradient(&inputs[2], &inputs[1])
            &&& fits_gradient(&inputs[3], &inputs[1])
        }
    }

    /// The entry at place `i` after an update of the inputs: parameter and
    /// moments as they enter, updated along the gradient at `i` with the step
    /// count raised by one.
    pub open spec fn spec_entry_after(&self, inputs: Seq<Grid<T>>, i: int) -> AdamWEntry<T> {
        let shape = inputs[1].spec_shape();
        self.spec_update(
            AdamWEntry {
                param: spec_spread(&inputs[0], shape)[i],
                m: spec_spread(&inputs[2], shape)[i],
                v: spec_spread(&inputs[3], shape)[i],
            },
            inputs[1].spec_samples()[i],
            inputs[4].spec_samples()[0].spec_sum(T::spec_of_count(1)),
        )
    }

    /// One update. The inputs are the parameter, the gradient, the first and
    /// the second moment and the step count, in this order; further inputs
    /// are not looked at. Fewer than five are refused. The outputs are the
    /// updated parameter, the gradient as it came, the two updated moments
    /// and the step count raised by one, the first four in the shape of the
    /// gradient.
    pub fn compute(&self, inputs: &[Grid<T>]) -> (r: Result<Vec<Grid<T>>, OpError>)
        requires
            Self::takes(inputs@),
        ensures
            inputs@.len() < 5 ==> r is Err && r->Err_0 is IncompatibleShape
                && r->Err_0->IncompatibleShape_0@ == too_few_inputs_message(inputs@.len() as usize),
            inputs@.len() >= 5 ==> {
                &&& r is Ok
                &&& r->Ok_0@.len() == 5
                &&& forall|k: int| 0 <= k < 5 ==> (#[trigger] r->Ok_0@[k]).wf()
                &&& forall|k: int|
                    0 <= k < 4 ==> (#[trigger] r->Ok_0@[k]).spec_shape() == inputs@[1].spec_shape()
                &&& r->Ok_0@[1].spec_samples() == inputs@[1].spec_samples()
                &&& r->Ok_0@[4].spec_shape().len() == 0
                &&& r->Ok_0@[4].spec_samples() == seq![
                    inputs@[4].spec_samples()[0].spec_sum(T::spec_of_count(1)),
                ]
                &&& forall|i: int|
                    0 <= i < inputs@[1].spec_samples().len() ==> {
                        &&& r->Ok_0@[0].spec_samples()[i] == (#[trigger] self.spec_entry_after(
                            inputs@,
                            i,
                        )).param
                        &&& r->Ok_0@[2].spec_samples()[i] == self.spec_entry_after(inputs@, i).m
                        &&& r->Ok_0@[3].spec_samples()[i] == self.spec_entry_after(inputs@, i).v
                    }
            },
    {
        if inputs.len() < 5 {
            return Err(OpError::IncompatibleShape(too_few_inputs_text(inputs.len())));
        }
        let grad = &inputs[1];
        assert(inputs@[0].wf() && inputs@[1].wf() && inputs@[2].wf() && inputs@[3].wf()
            && inputs@[4].wf());
        assert(volume(inputs@[4].spec_shape()) == 1);
        let new_t = inputs[4].samples()[0].sum(T::of_count(1));
        let params = spread(&inputs[0], grad);
        let ms = spread(&inputs[2], grad);
        let vs = spread(&inputs[3], grad);
        let grads = grad.samples();
        let mut new_param: Vec<T> = Vec::new();
        let mut new_m: Vec<T> = Vec::new();
        let mut new_v: Vec<T> = Vec::new();
        let mut same_grad: Vec<T> = Vec::new();
        let mut i: usize = 0;
        while i < grads.len()
            invariant
                i <= grads@.len(),
                grads@ == inputs@[1].spec_samples(),
                params@ == spec_spread(&inputs@[0], inputs@[1].spec_shape()),
                ms@ == spec_spread(&inputs@[2], inputs@[1].spec_shape()),
                vs@ == spec_spread(&inputs@[3], inputs@[1].spec_shape()),
                params@.len() == grads@.len(),
                ms@.len() == grads@.len(),
                vs@.len() == grads@.len(),
                new_t == inputs@[4].spec_samples()[0].spec_sum(T::spec_of_count(1)),
                new_param@.len() == i,
                new_m@.len() == i,
                new_v@.len() == i,
                same_grad@ == grads@.subrange(0, i as int),
                forall|k: int|
                    0 <= k < i ==> {
                        &&& new_param@[k] == (#[trigger] self.spec_entry_after(inputs@, k)).param
                        &&& new_m@[k] == self.spec_entry_after(inputs@, k).m
                        &&& new_v@[k] == self.spec_entry_after(inputs@, k).v
                    },
            decreases grads@.len() - i,
        {
            let entry = self.update(
                AdamWEntry { param: params[i], m: ms[i], v: vs[i] },
                grads[i],
                new_t,
            );
            new_param.push(entry.param);
            new_m.push(entry.m);
            new_v.push(entry.v);
            same_grad.push(grads[i]);
            assert(same_grad@ =~= grads@.subrange(0, i + 1));
            i = i + 1;
        }
        assert(same_grad@ =~= grads@);
        let mut step: Vec<T> = Vec::new();
        step.push(new_t);
        assert(step@ =~= seq![new_t]);
        assert(volume(Seq::<usize>::empty()) == 1);
        let mut outputs: Vec<Grid<T>> = Vec::new();
        outputs.push(grad.same_shape(new_param).unwrap());
        outputs.push(grad.same_shape(same_grad).unwrap());
        outputs.push(grad.same_shape(new_m).unwrap());
        outputs.push(grad.same_shape(new_v).unwrap());
        outputs.push(Grid::new(Vec::new(), step).unwrap());
        Ok(outputs)
    }

    /// The gradients that flow back through an update to its five inputs:
    /// none, for an update is where differentiation ends.
    pub fn grad(&self) -> (r: Vec<Option<Grid<T>>>)
        ensures
            r@.len() == 5,
            forall|k: int| 0 <= k < 5 ==> (#[trigger] r@[k]) is None,
    {
        let mut r: Vec<Option<Grid<T>>> = Vec::new();
        r.push(None);
        r.push(None);
        r.push(None);
        r.push(None);
        r.push(None);
        r
    }
}

} // verus!

//! A moving average over a trace.
use super::finite_differences::{centre_lag, centre_lag_of, slide};
use super::Window;
use crate::fixed::{
    clamp, clamp_wide, trunc_div_wide, real_add, real_add_spec, real_div_int, real_div_int_spec, real_mul, real_mul_spec,
    real_sub, real_sub_spec, trunc_div, Real,
};
use crate::pulse_detection::datatype::Stats;
use std::collections::VecDeque;
use vstd::prelude::*;

verus! {

/// The sum of some values.
pub open spec fn total(values: Seq<Real>) -> int
    decreases values.len(),
{
    if values.len() == 0 {
        0
    } else {
        total(values.drop_last()) + values.last()
    }
}

/// The arithmetic mean of some values, rounded toward zero.
pub open spec fn mean_of(values: Seq<Real>) -> Real
    recommends
        values.len() > 0,
{
    clamp(trunc_div(total(values), values.len() as int))
}

/// The sum of the squares of the distances of some values from `mean`.
pub open spec fn squares(values: Seq<Real>, mean: Real) -> Real
    decreases values.len(),
{
    if values.len() == 0 {
        0
    } else {
        let distance = real_sub_spec(values.last(), mean);
        real_add_spec(squares(values.drop_last(), mean), real_mul_spec(distance, distance))
    }
}

/// The variance of some values: the mean of the squares of their distances from their mean.
pub open spec fn variance_of(values: Seq<Real>) -> Real
    recommends
        values.len() > 0,
{
    real_div_int_spec(squares(values, mean_of(values)), values.len() as int)
}

/// The newest of some values, with the mean and the variance of all of them.
pub open spec fn stats_of(values: Seq<Real>) -> Stats
    recommends
        values.len() > 0,
{
    Stats { value: values.last(), mean: mean_of(values), variance: variance_of(values) }
}

/// A sum of squares is not negative, and so no variance is.
pub proof fn lemma_variance_is_not_negative(values: Seq<Real>)
    requires
        values.len() > 0,
    ensures
        variance_of(values) >= 0,
{
    lemma_squares_are_not_negative(values, mean_of(values));
}

/// A sum of squares is not negative.
pub proof fn lemma_squares_are_not_negative(values: Seq<Real>, mean: Real)
    ensures
        squares(values, mean) >= 0,
    decreases values.len(),
{
    if values.len() > 0 {
        lemma_squares_are_not_negative(values.drop_last(), mean);
        let distance = real_sub_spec(values.last(), mean);
        assert(distance * distance >= 0) by (nonlinear_arith);
    }
}

/// The sum of the values in a buffer.
pub fn sum_of(values: &VecDeque<Real>) -> (r: i128)
    ensures
        r == total(values@),
        i128::MIN < r,
{
    let mut acc: i128 = 0;
    let mut i: usize = 0;
    let n = values.len();
    proof {
        vstd::std_specs::vecdeque::axiom_spec_len(values);
    }
    while i < n
        invariant
            i <= n,
            n == values@.len(),
            acc == total(values@.take(i as int)),
            -0x8000_0000_0000_0000 * i <= acc <= 0x8000_0000_0000_0000 * i,
        decreases n - i,
    {
        let x: Real = values[i];
        proof {
            assert(values@.take(i + 1).drop_last() =~= values@.take(i as int));
        }
        acc = acc + x as i128;
        i += 1;
    }
    proof {
        assert(values@.take(n as int) =~= values@);
    }
    acc
}

/// The arithmetic mean of the values in a buffer that is not empty.
pub fn mean_in(values: &VecDeque<Real>) -> (r: Real)
    requires
        values@.len() > 0,
    ensures
        r == mean_of(values@),
{
    proof {
        vstd::std_specs::vecdeque::axiom_spec_len(values);
    }
    clamp_wide(trunc_div_wide(sum_of(values), values.len() as i128))
}

/// What a [`SmoothingWindow`] is: its size, and the last samples, oldest first.
pub struct SmoothingModel {
    /// Over how many samples the window averages.
    pub size: nat,
    /// The last `size` samples at most.
    pub values: Seq<Real>,
}

/// Gives each sample with the mean and the variance of the last `size` samples.
pub struct SmoothingWindow {
    size: usize,
    window: VecDeque<Real>,
}

impl SmoothingWindow {
    /// A window over `size` samples that has seen none. A window over no
    /// sample never has an output.
    pub fn new(size: usize) -> (r: Self)
        ensures
            r.wf(),
            r.model() == (SmoothingModel { size: size as nat, values: Seq::empty() }),
    {
        SmoothingWindow { size, window: VecDeque::new() }
    }

    /// The sum of the squares of the distances of the samples held from `mean`.
    fn sum_of_squares(&self, mean: Real) -> (r: Real)
        ensures
            r == squares(self.window@, mean),
    {
        let mut acc: Real = 0;
        let mut i: usize = 0;
        let n = self.window.len();
        proof {
            vstd::std_specs::vecdeque::axiom_spec_len(&self.window);
        }
        while i < n
            invariant
                i <= n,
                n == self.window@.len(),
                acc == squares(self.window@.take(i as int), mean),
            decreases n - i,
        {
            let distance = real_sub(self.window[i], mean);
            proof {
                assert(self.window@.take(i + 1).drop_last() =~= self.window@.take(i as int));
            }
            acc = real_add(acc, real_mul(distance, distance));
            i += 1;
        }
        proof {
            assert(self.window@.take(n as int) =~= self.window@);
        }
        acc
    }
}

impl Window for SmoothingWindow {
    type Input = Real;

    type Output = Stats;

    type Model = SmoothingModel;

    closed spec fn model(&self) -> SmoothingModel {
        SmoothingModel { size: self.size as nat, values: self.window@ }
    }

    closed spec fn wf(&self) -> bool {
        self.window@.len() <= self.size
    }

    open spec fn step(m: SmoothingModel, value: Real) -> SmoothingModel {
        SmoothingModel { values: slide(m.values, value, m.size), ..m }
    }

    /// There is an output once `size` samples are held.
    open spec fn ready(m: SmoothingModel) -> bool {
        m.size > 0 && m.values.len() == m.size
    }

    open spec fn out(m: SmoothingModel) -> Stats {
        stats_of(m.values)
    }

    open spec fn shift(m: SmoothingModel) -> Real {
        centre_lag(m.size)
    }

    proof fn lemma_step_keeps_shift(m: SmoothingModel, value: Real) {
    }

    proof fn lemma_stays_ready(m: SmoothingModel, value: Real) {
    }

    fn push(&mut self, value: Real) -> (ready: bool) {
        proof {
            vstd::std_specs::vecdeque::axiom_spec_len(&self.window);
        }
        if self.window.len() >= self.size {
            let dropped = self.window.pop_front();
            proof {
                if old(self).window@.len() > 0 {
                    assert(self.window@ =~= old(self).window@.skip(1));
                    assert(old(self).window@.push(value).skip(1) =~= old(self).window@.skip(
                        1,
                    ).push(value));
                }
            }
        }
        if self.size > 0 {
            self.window.push_back(value);
        } else {
            proof {
                assert(old(self).window@.push(value).skip(1) =~= Seq::<Real>::empty());
                assert(self.window@ =~= Seq::<Real>::empty());
            }
        }
        proof {
            vstd::std_specs::vecdeque::axiom_spec_len(&self.window);
            assert(self.window@ =~= slide(old(self).window@, value, self.size as nat));
        }
        self.size > 0 && self.window.len() == self.size
    }

    fn output(&self) -> (r: Option<Stats>) {
        proof {
            vstd::std_specs::vecdeque::axiom_spec_len(&self.window);
        }
        let n = self.window.len();
        if self.size > 0 && n == self.size {
            let mean: Real = mean_in(&self.window);
            let variance = real_div_int(self.sum_of_squares(mean), n as u64);
            Some(Stats { value: self.window[n - 1], mean, variance })
        } else {
            None
        }
    }

    fn apply_time_shift(&self, time: Real) -> (r: Real) {
        real_sub(time, centre_lag_of(self.size))
    }
}

} // verus!

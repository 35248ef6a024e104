//! Removal of a trace's baseline.
use super::Window;
use crate::fixed::{
    real_add, real_add_spec, real_div_int, real_div_int_spec, real_mul, real_mul_spec, real_sub,
    real_sub_spec, Real,
};
use vstd::prelude::*;

verus! {

/// Estimates the baseline of a trace and takes it off.
///
/// The first `warm_up` samples give no output: their mean is the first
/// estimate. Each later sample is given out less the estimate, and then draws
/// the estimate toward itself by the fraction `smoothing_factor` of what was
/// left of it.
#[derive(Clone, Copy, Debug)]
pub struct Baseline {
    /// How many samples make the first estimate.
    pub warm_up: usize,
    /// The fraction by which a later sample moves the estimate.
    pub smoothing_factor: Real,
    /// How many of the first samples have come in.
    pub seen: usize,
    /// The sum of the first samples that have come in.
    pub sum: Real,
    /// The estimate of the baseline.
    pub baseline: Real,
    /// The last sample that was given out, less the estimate.
    pub value: Real,
    /// Whether a sample has been given out.
    pub primed: bool,
}

impl Baseline {
    /// A window that has seen no sample.
    pub open spec fn spec_new(warm_up: usize, smoothing_factor: Real) -> Self {
        Baseline {
            warm_up,
            smoothing_factor,
            seen: 0,
            sum: 0,
            baseline: 0,
            value: 0,
            primed: false,
        }
    }

    /// A window that has seen no sample.
    pub fn new(warm_up: usize, smoothing_factor: Real) -> (r: Self)
        ensures
            r == Self::spec_new(warm_up, smoothing_factor),
            r.wf(),
            r.model() == r,
    {
        Baseline { warm_up, smoothing_factor, seen: 0, sum: 0, baseline: 0, value: 0, primed: false }
    }
}

impl Window for Baseline {
    type Input = Real;

    type Output = Real;

    type Model = Baseline;

    open spec fn model(&self) -> Baseline {
        *self
    }

    open spec fn wf(&self) -> bool {
        true
    }

    open spec fn step(m: Baseline, value: Real) -> Baseline {
        if m.seen < m.warm_up {
            let sum = real_add_spec(m.sum, value);
            let seen = (m.seen + 1) as usize;
            Baseline {
                seen,
                sum,
                baseline: if seen == m.warm_up {
                    real_div_int_spec(sum, m.warm_up as int)
                } else {
                    m.baseline
                },
                ..m
            }
        } else {
            let excess = real_sub_spec(value, m.baseline);
            Baseline {
                value: excess,
                baseline: real_add_spec(m.baseline, real_mul_spec(m.smoothing_factor, excess)),
                primed: true,
                ..m
            }
        }
    }

    open spec fn ready(m: Baseline) -> bool {
        m.primed
    }

    open spec fn out(m: Baseline) -> Real {
        m.value
    }

    /// The output stands at the time of its sample.
    open spec fn shift(m: Baseline) -> Real {
        0
    }

    proof fn lemma_step_keeps_shift(m: Baseline, value: Real) {
    }

    proof fn lemma_stays_ready(m: Baseline, value: Real) {
    }

    fn push(&mut self, value: Real) -> (ready: bool) {
        if self.seen < self.warm_up {
            self.sum = real_add(self.sum, value);
            self.seen = self.seen + 1;
            if self.seen == self.warm_up {
                self.baseline = real_div_int(self.sum, self.warm_up as u64);
            }
        } else {
            let excess = real_sub(value, self.baseline);
            self.value = excess;
            self.baseline = real_add(self.baseline, real_mul(self.smoothing_factor, excess));
            self.primed = true;
        }
        self.primed
    }

    fn output(&self) -> (r: Option<Real>) {
        if self.primed {
            Some(self.value)
        } else {
            None
        }
    }

    fn apply_time_shift(&self, time: Real) -> (r: Real) {
        time
    }
}

} // verus!

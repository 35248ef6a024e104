//! Backward finite differences of a waveform.
use super::Window;
use crate::fixed::{real_from_int, real_from_int_spec, real_sub, real_sub_spec, Real};
use crate::pulse_detection::datatype::{array_of, lemma_array_eq, lemma_array_of, RealArray, TraceArray};
use vstd::prelude::*;

verus! {

/// The backward difference of order `n` of the waveform `values` at position
/// `at`: the value itself for order 0, and the difference of order `n - 1`
/// there less the one a position earlier for order `n`.
pub open spec fn difference(values: Seq<Real>, n: nat, at: int) -> Real
    recommends
        n <= at < values.len(),
    decreases n,
{
    if n == 0 {
        values[at]
    } else {
        real_sub_spec(
            difference(values, (n - 1) as nat, at),
            difference(values, (n - 1) as nat, at - 1),
        )
    }
}

/// The differences of orders `0` to `count - 1` at the last position of `values`.
pub open spec fn differences(values: Seq<Real>, count: nat) -> Seq<Real> {
    Seq::new(count, |n: int| difference(values, n as nat, values.len() - 1))
}

/// The last `N` values at most, after `value` came in.
pub open spec fn slide(values: Seq<Real>, value: Real, limit: nat) -> Seq<Real> {
    let pushed = values.push(value);
    if pushed.len() > limit {
        pushed.skip(1)
    } else {
        pushed
    }
}

/// How far the output of a window over `size` samples lags: half the samples
/// before the last, rounded down, each one unit of time long.
pub open spec fn centre_lag(size: nat) -> Real {
    if size == 0 {
        0
    } else {
        real_from_int_spec((size - 1) / 2)
    }
}

/// The lag of a window over `size` samples.
pub fn centre_lag_of(size: usize) -> (r: Real)
    ensures
        r == centre_lag(size as nat),
{
    if size == 0 {
        0
    } else {
        let half: usize = (size - 1) / 2;
        real_from_int(half as i64)
    }
}

/// A difference does not change when a value is appended behind its position.
pub proof fn lemma_difference_push(values: Seq<Real>, value: Real, n: nat, at: int)
    requires
        n <= at < values.len(),
    ensures
        difference(values.push(value), n, at) == difference(values, n, at),
    decreases n,
{
    if n > 0 {
        lemma_difference_push(values, value, (n - 1) as nat, at);
        lemma_difference_push(values, value, (n - 1) as nat, at - 1);
    }
}

/// A difference moves with its values when the first value is dropped.
pub proof fn lemma_difference_skip(values: Seq<Real>, n: nat, at: int)
    requires
        n <= at,
        at + 1 < values.len(),
    ensures
        difference(values.skip(1), n, at) == difference(values, n, at + 1),
    decreases n,
{
    if n > 0 {
        lemma_difference_skip(values, (n - 1) as nat, at);
        lemma_difference_skip(values, (n - 1) as nat, at - 1);
    }
}

/// Gives each sample together with its backward differences of orders up to `N - 1`.
pub struct FiniteDifferences<const N: usize> {
    /// The differences at the newest sample, as far as there are samples for them.
    diffs: [Real; N],
    /// How many of the last samples are held: `N` at most.
    filled: usize,
    /// The samples held, oldest first.
    held: Ghost<Seq<Real>>,
}

impl<const N: usize> FiniteDifferences<N> {
    /// A window that has seen no sample.
    pub fn new() -> (r: Self)
        ensures
            r.wf(),
            r.model() == Seq::<Real>::empty(),
    {
        FiniteDifferences { diffs: [0; N], filled: 0, held: Ghost(Seq::empty()) }
    }
}

impl<const N: usize> Window for FiniteDifferences<N> {
    type Input = Real;

    type Output = RealArray<N>;

    /// The last `N` samples at most, oldest first.
    type Model = Seq<Real>;

    closed spec fn model(&self) -> Seq<Real> {
        self.held@
    }

    closed spec fn wf(&self) -> bool {
        &&& self.filled <= N
        &&& self.held@.len() == self.filled
        &&& forall|n: int|
            0 <= n < self.filled ==> self.diffs@[n] == difference(
                self.held@,
                n as nat,
                self.filled - 1,
            )
    }

    open spec fn step(m: Seq<Real>, value: Real) -> Seq<Real> {
        slide(m, value, N as nat)
    }

    /// There is an output once `N` samples are held.
    open spec fn ready(m: Seq<Real>) -> bool {
        m.len() == N
    }

    /// The newest sample and its differences of orders 1 to `N - 1`.
    open spec fn out(m: Seq<Real>) -> RealArray<N> {
        array_of::<N>(differences(m, N as nat))
    }

    open spec fn shift(m: Seq<Real>) -> Real {
        centre_lag(N as nat)
    }

    proof fn lemma_step_keeps_shift(m: Seq<Real>, value: Real) {
    }

    proof fn lemma_stays_ready(m: Seq<Real>, value: Real) {
    }

    fn push(&mut self, value: Real) -> (ready: bool) {
        if N == 0 {
            proof {
                assert(slide(self.held@, value, 0) =~= self.held@);
            }
            return true;
        }
        let ghost before = self.held@;
        let ghost after = slide(before, value, N as nat);
        let ghost old_diffs = self.diffs@;
        let ghost old_filled = self.filled;
        let ghost last: int = after.len() - 1;
        proof {
            broadcast use vstd::array::group_array_axioms;

        }
        let mut below: Real = self.diffs[0];
        self.diffs[0] = value;
        let mut n: usize = 1;
        while n < N
            invariant
                1 <= n <= N,
                N > 0,
                old_filled <= N,
                before.len() == old_filled,
                after == slide(before, value, N as nat),
                last == after.len() - 1,
                forall|j: int|
                    0 <= j < old_filled ==> old_diffs[j] == difference(
                        before,
                        j as nat,
                        old_filled - 1,
                    ),
                old_diffs.len() == N,
                forall|j: int| n <= j < N ==> self.diffs@[j] == old_diffs[j],
                below == old_diffs[n - 1],
                forall|j: int|
                    0 <= j < n && j <= last ==> self.diffs@[j] == difference(after, j as nat, last),
                self.filled == old_filled,
                self.held@ == before,
            decreases N - n,
        {
            proof {
                broadcast use vstd::array::group_array_axioms;

            }
            let kept: Real = self.diffs[n];
            let lower: Real = self.diffs[n - 1];
            self.diffs[n] = real_sub(lower, below);
            proof {
                if n <= last {
                    // The difference of order `n - 1` one position earlier is
                    // the one that was held before `value` came in.
                    if old_filled < N {
                        lemma_difference_push(before, value, (n - 1) as nat, old_filled - 1);
                    } else {
                        lemma_difference_push(before, value, (n - 1) as nat, N - 1);
                        lemma_difference_skip(before.push(value), (n - 1) as nat, N - 2);
                    }
                }
            }
            below = kept;
            n += 1;
        }
        if self.filled < N {
            self.filled += 1;
        }
        self.held = Ghost(after);
        self.filled == N
    }

    fn output(&self) -> (r: Option<RealArray<N>>) {
        if self.filled == N {
            let r = TraceArray::new(self.diffs);
            proof {
                broadcast use vstd::array::group_array_axioms;

                lemma_array_of::<N>(differences(self.held@, N as nat));
                lemma_array_eq::<N>(r, array_of::<N>(differences(self.held@, N as nat)));
            }
            Some(r)
        } else {
            None
        }
    }

    fn apply_time_shift(&self, time: Real) -> (r: Real) {
        real_sub(time, centre_lag_of(N))
    }
}

} // verus!

//! The values that flow between the stages of a pipeline.
use crate::fixed::Real;
use vstd::prelude::*;

verus! {

/// A fixed-size group of values that travels as one trace value: a sample
/// together with its finite differences.
#[derive(Clone, Copy, Debug, PartialEq)]
pub struct TraceArray<const N: usize, T>(pub [T; N]);

/// In practice the arrays hold scalars.
pub type RealArray<const N: usize> = TraceArray<N, Real>;

impl<const N: usize, T> TraceArray<N, T> {
    /// The element at position `idx`.
    pub open spec fn at(self, idx: int) -> T
        recommends
            0 <= idx < N,
    {
        self.0[idx]
    }

    /// Wraps an array.
    pub fn new(value: [T; N]) -> (r: Self)
        ensures
            r.0 == value,
    {
        Self(value)
    }

    /// A reference to the element at position `idx`.
    pub fn index(&self, idx: usize) -> (r: &T)
        requires
            idx < N,
        ensures
            *r == self.at(idx as int),
    {
        &self.0[idx]
    }

    /// A reference through which the element at position `idx` can be changed.
    pub fn index_mut(&mut self, idx: usize) -> (r: &mut T)
        requires
            idx < N,
        ensures
            *r == old(self).at(idx as int),
            final(self).0@ == old(self).0@.update(idx as int, *final(r)),
    {
        &mut self.0[idx]
    }
}

impl<const N: usize> Default for TraceArray<N, Real> {
    fn default() -> (r: Self)
        ensures
            forall|i: int| 0 <= i < N ==> r.at(i) == 0,
    {
        proof {
            vstd::array::axiom_spec_array_fill_for_copy_type::<Real, N>(0);
        }
        Self([0; N])
    }
}

/// A value with the statistics of the window it was taken from.
#[derive(Clone, Copy, Debug, PartialEq)]
pub struct Stats {
    /// The current value.
    pub value: Real,
    /// The arithmetic mean over the window.
    pub mean: Real,
    /// The variance over the window.
    pub variance: Real,
}

} // verus!

verus! {

/// The array whose first `k` elements are those of `s`, and whose others are zero.
pub open spec fn array_of_prefix<const N: usize>(s: Seq<Real>, k: nat) -> [Real; N]
    decreases k,
{
    if k == 0 {
        vstd::array::spec_array_fill_for_copy_type::<Real, N>(0)
    } else {
        vstd::array::spec_array_update(array_of_prefix::<N>(s, (k - 1) as nat), k - 1, s[k - 1])
    }
}

/// The array that holds the first `N` elements of `s`.
pub open spec fn array_of<const N: usize>(s: Seq<Real>) -> RealArray<N> {
    TraceArray(array_of_prefix::<N>(s, N as nat))
}

/// `array_of_prefix` holds the elements it was given, in their places.
pub proof fn lemma_array_of_prefix<const N: usize>(s: Seq<Real>, k: nat)
    requires
        k <= N,
        k <= s.len(),
    ensures
        forall|i: int| 0 <= i < k ==> (#[trigger] array_of_prefix::<N>(s, k)@[i]) == s[i],
        forall|i: int| k <= i < N ==> (#[trigger] array_of_prefix::<N>(s, k)@[i]) == 0,
    decreases k,
{
    if k == 0 {
        vstd::array::axiom_spec_array_fill_for_copy_type::<Real, N>(0);
    } else {
        let shorter = array_of_prefix::<N>(s, (k - 1) as nat);
        lemma_array_of_prefix::<N>(s, (k - 1) as nat);
        vstd::array::axiom_spec_array_update(shorter, k - 1, s[k - 1]);
        assert(array_of_prefix::<N>(s, k)@ == shorter@.update(k - 1, s[k - 1]));
    }
}

/// `array_of` holds the elements it was given, in their places.
pub proof fn lemma_array_of<const N: usize>(s: Seq<Real>)
    requires
        N <= s.len(),
    ensures
        forall|i: int| 0 <= i < N ==> (#[trigger] array_of::<N>(s).at(i)) == s[i],
{
    lemma_array_of_prefix::<N>(s, N as nat);
    assert forall|i: int| 0 <= i < N implies (#[trigger] array_of::<N>(s).at(i)) == s[i] by {
        assert(array_of_prefix::<N>(s, N as nat)@[i] == s[i]);
    }
}

/// Two arrays with the same elements are the same array.
pub proof fn lemma_array_eq<const N: usize>(a: RealArray<N>, b: RealArray<N>)
    requires
        forall|i: int| 0 <= i < N ==> a.at(i) == b.at(i),
    ensures
        a == b,
{
    vstd::array::axiom_array_ext_equal(a.0, b.0);
    assert forall|i: int| 0 <= i < N implies a.0[i] == b.0[i] by {
        assert(a.at(i) == b.at(i));
    }
    assert(a.0 =~= b.0);
}

} // verus!

verus! {

impl From<Real> for Stats {
    fn from(value: Real) -> (r: Self) {
        Stats { value, mean: value, variance: 0 }
    }
}

impl vstd::std_specs::convert::FromSpecImpl<Real> for Stats {
    open spec fn obeys_from_spec() -> bool {
        true
    }

    /// The statistics of a single value: it is its own mean, and has no variance.
    open spec fn from_spec(value: Real) -> Self {
        Stats { value, mean: value, variance: 0 }
    }
}

} // verus!

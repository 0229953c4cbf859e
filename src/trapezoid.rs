use vstd::prelude::*;
use crate::stride::stride_indices;
use crate::sums::{indices_within, lemma_sum_scaled, lemma_sum_uniform, scaled, sum_at, uniform};

verus! {

/// Where the trapezoidal rule reads its samples.
///
/// Over samples `y[0..=last]` spaced `h` apart the rule gives
/// `h * (0.5 * (y[0] + y[last]) + Σ y[interior])`.
pub struct TrapezoidLayout {
    /// Index of the last sample.
    pub last: usize,
    /// The interior indices `1, 2, ..., last - 1`, each weighted by one.
    pub interior: Vec<usize>,
}

impl TrapezoidLayout {
    /// This is the layout of the rule over `n` samples.
    pub open spec fn describes(&self, n: nat) -> bool {
        &&& n >= 2
        &&& self.last == n - 1
        &&& self.interior@.len() == n - 2
        &&& forall|k: int| 0 <= k < n - 2 ==> self.interior@[k] == k + 1
    }

    /// Twice the bracketed sum of the rule, `y[0] + y[last] + 2 * Σ y[interior]`,
    /// in exact arithmetic; the integral is this times `h / 2`.
    pub open spec fn weighted_sum(&self, y: Seq<int>) -> int {
        y[0] + y[self.last as int] + 2 * sum_at(y, self.interior@)
    }
}

/// Lays out the indices the trapezoidal rule sums over for `n` samples.
/// `None` stands for zero or one sample: there is no interval, and the
/// integral is zero.
pub fn trapezoid_layout(n: usize) -> (r: Option<TrapezoidLayout>)
    ensures
        r is None <==> n <= 1,
        r matches Some(l) ==> l.describes(n as nat),
{
    if n <= 1 {
        return None;
    }
    let last = n - 1;
    let interior = stride_indices(1, 1, n - 2);
    Some(TrapezoidLayout { last, interior })
}

/// Every sample index lies in exactly one of the rule's three places: the
/// first sample, the last sample, or the interior.
pub proof fn lemma_trapezoid_partition(l: TrapezoidLayout, n: nat, i: int)
    requires
        l.describes(n),
        0 <= i < n,
    ensures
        (if i == 0 { 1int } else { 0 }) + (if i == l.last { 1int } else { 0 })
            + (if l.interior@.contains(i as usize) { 1int } else { 0 }) == 1,
{
    if 0 < i < n - 1 {
        assert(l.interior@[i - 1] == i);
        assert(l.interior@.contains(i as usize));
    }
}

/// Applied to a constant `c`, twice the rule's bracketed sum is
/// `2 * c * (n - 1)`, so the integral is `c * h * (n - 1)`: the exact
/// integral of a constant.
pub proof fn lemma_trapezoid_uniform(l: TrapezoidLayout, n: nat, c: int)
    requires
        l.describes(n),
    ensures
        l.weighted_sum(uniform(n, c)) == 2 * c * (n - 1),
{
    assert(indices_within(l.interior@, n));
    lemma_sum_uniform(n, c, l.interior@);
    let m = n as int;
    assert(2 * c + 2 * (c * (m - 2)) == 2 * c * (m - 1)) by (nonlinear_arith);
}

/// Scaling every sample by `c` scales the rule's result by `c`.
pub proof fn lemma_trapezoid_scaled(l: TrapezoidLayout, n: nat, y: Seq<int>, c: int)
    requires
        l.describes(n),
        y.len() == n,
    ensures
        l.weighted_sum(scaled(y, c)) == c * l.weighted_sum(y),
{
    assert(indices_within(l.interior@, n));
    lemma_sum_scaled(y, c, l.interior@);
    let a = y[0];
    let b = y[l.last as int];
    let s = sum_at(y, l.interior@);
    assert(c * a + c * b + 2 * (c * s) == c * (a + b + 2 * s)) by (nonlinear_arith);
}

/// The layout is a function of the sample count alone: two layouts of the
/// same count agree in every field.
pub proof fn lemma_trapezoid_layout_determined(a: TrapezoidLayout, b: TrapezoidLayout, n: nat)
    requires
        a.describes(n),
        b.describes(n),
    ensures
        a.last == b.last,
        a.interior@ == b.interior@,
{
    assert(a.interior@ =~= b.interior@);
}

} // verus!

use vstd::prelude::*;
use crate::stride::stride_indices;
use crate::sums::{indices_within, lemma_sum_scaled, lemma_sum_uniform, scaled, sum_at, uniform};

verus! {

/// Where composite Simpson's rule reads its samples.
///
/// Over samples `y[0..=last]` spaced `h` apart the rule gives
/// `(y[0] + y[last] + 4 * Σ y[odd] + 2 * Σ y[even]) * h / 3`.
pub struct SimpsonLayout {
    /// Index of the last sample.
    pub last: usize,
    /// The odd indices `1, 3, ..., last - 1`, weighted by four.
    pub odd: Vec<usize>,
    /// The even interior indices `2, 4, ..., last - 2`, weighted by two.
    pub even: Vec<usize>,
}

/// The rule applies to `n` samples: at least three, and an odd count.
pub open spec fn simpson_applies(n: nat) -> bool {
    n > 2 && n % 2 == 1
}

impl SimpsonLayout {
    /// This is the layout of the rule over `n` samples.
    pub open spec fn describes(&self, n: nat) -> bool {
        &&& simpson_applies(n)
        &&& self.last == n - 1
        &&& self.odd@.len() == n / 2
        &&& forall|k: int| 0 <= k < n / 2 ==> self.odd@[k] == 2 * k + 1
        &&& self.even@.len() == n / 2 - 1
        &&& forall|k: int| 0 <= k < n / 2 - 1 ==> self.even@[k] == 2 * k + 2
    }

    /// The bracketed sum of the rule, `y[0] + y[last] + 4 * Σ y[odd] + 2 * Σ y[even]`,
    /// in exact arithmetic; the integral is this times `h / 3`.
    pub open spec fn weighted_sum(&self, y: Seq<int>) -> int {
        y[0] + y[self.last as int] + 4 * sum_at(y, self.odd@) + 2 * sum_at(y, self.even@)
    }
}

/// Decides whether Simpson's rule applies to `n` samples and, where it does,
/// lays out the indices it sums over. `None` stands for the degenerate
/// inputs (fewer than three samples, or an even count), whose integral is zero.
pub fn simpson_layout(n: usize) -> (r: Option<SimpsonLayout>)
    ensures
        r is None <==> !simpson_applies(n as nat),
        r matches Some(l) ==> l.describes(n as nat),
{
    if n <= 2 {
        return None;
    }
    if n % 2 == 0 {
        return None;
    }
    let last = n - 1;
    let num_odd = n / 2;
    let num_even = num_odd - 1;
    let odd = stride_indices(1, 2, num_odd);
    let even = stride_indices(2, 2, num_even);
    Some(SimpsonLayout { last, odd, even })
}

/// Every sample index lies in exactly one of the rule's four places: the
/// first sample, the last sample, the odd indices, or the even interior ones.
pub proof fn lemma_simpson_partition(l: SimpsonLayout, n: nat, i: int)
    requires
        l.describes(n),
        0 <= i < n,
    ensures
        (if i == 0 { 1int } else { 0 }) + (if i == l.last { 1int } else { 0 })
            + (if l.odd@.contains(i as usize) { 1int } else { 0 })
            + (if l.even@.contains(i as usize) { 1int } else { 0 }) == 1,
{
    if i % 2 == 1 {
        assert(l.odd@[(i - 1) / 2] == i);
        assert(l.odd@.contains(i as usize));
    } else if 0 < i < n - 1 {
        assert(l.even@[(i - 2) / 2] == i);
        assert(l.even@.contains(i as usize));
    }
}

/// Applied to a constant `c`, the rule's bracketed sum is `3 * c * (n - 1)`,
/// so the integral is `c * h * (n - 1)`: the exact integral of a constant.
pub proof fn lemma_simpson_uniform(l: SimpsonLayout, n: nat, c: int)
    requires
        l.describes(n),
    ensures
        l.weighted_sum(uniform(n, c)) == 3 * c * (n - 1),
{
    assert(indices_within(l.odd@, n));
    assert(indices_within(l.even@, n));
    lemma_sum_uniform(n, c, l.odd@);
    lemma_sum_uniform(n, c, l.even@);
    let m = (n / 2) as int;
    assert(n == 2 * m + 1);
    assert(2 * c + 4 * (c * m) + 2 * (c * (m - 1)) == 3 * c * (2 * m)) by (nonlinear_arith);
}

/// Scaling every sample by `c` scales the rule's result by `c`.
pub proof fn lemma_simpson_scaled(l: SimpsonLayout, n: nat, y: Seq<int>, c: int)
    requires
        l.describes(n),
        y.len() == n,
    ensures
        l.weighted_sum(scaled(y, c)) == c * l.weighted_sum(y),
{
    assert(indices_within(l.odd@, n));
    assert(indices_within(l.even@, n));
    lemma_sum_scaled(y, c, l.odd@);
    lemma_sum_scaled(y, c, l.even@);
    let a = y[0];
    let b = y[l.last as int];
    let s = sum_at(y, l.odd@);
    let t = sum_at(y, l.even@);
    assert(c * a + c * b + 4 * (c * s) + 2 * (c * t) == c * (a + b + 4 * s + 2 * t))
        by (nonlinear_arith);
}

/// The layout is a function of the sample count alone: two layouts of the
/// same count agree in every field.
pub proof fn lemma_simpson_layout_determined(a: SimpsonLayout, b: SimpsonLayout, n: nat)
    requires
        a.describes(n),
        b.describes(n),
    ensures
        a.last == b.last,
        a.odd@ == b.odd@,
        a.even@ == b.even@,
{
    assert(a.odd@ =~= b.odd@);
    assert(a.even@ =~= b.even@);
}

} // verus!

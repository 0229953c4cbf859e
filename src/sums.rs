use vstd::prelude::*;

verus! {

/// The sum of `y[i]` over the indices `i` listed in `idx`, in order.
pub open spec fn sum_at(y: Seq<int>, idx: Seq<usize>) -> int
    decreases idx.len(),
{
    if idx.len() == 0 {
        0
    } else {
        sum_at(y, idx.drop_last()) + y[idx.last() as int]
    }
}

/// Every index listed in `idx` is below `len`.
pub open spec fn indices_within(idx: Seq<usize>, len: nat) -> bool {
    forall|k: int| 0 <= k < idx.len() ==> idx[k] < len
}

/// The samples `y` with every value multiplied by `c`.
pub open spec fn scaled(y: Seq<int>, c: int) -> Seq<int> {
    Seq::new(y.len(), |i: int| c * y[i])
}

/// `len` samples that all hold the value `c`.
pub open spec fn uniform(len: nat, c: int) -> Seq<int> {
    Seq::new(len, |i: int| c)
}

/// Summing a constant over `m` indices gives `m` times the constant.
pub proof fn lemma_sum_uniform(len: nat, c: int, idx: Seq<usize>)
    requires
        indices_within(idx, len),
    ensures
        sum_at(uniform(len, c), idx) == c * idx.len(),
    decreases idx.len(),
{
    if idx.len() > 0 {
        lemma_sum_uniform(len, c, idx.drop_last());
        let m = idx.len() as int;
        assert(c * (m - 1) + c == c * m) by (nonlinear_arith);
    }
}

/// Scaling the samples scales the sum over any indices within them.
pub proof fn lemma_sum_scaled(y: Seq<int>, c: int, idx: Seq<usize>)
    requires
        indices_within(idx, y.len()),
    ensures
        sum_at(scaled(y, c), idx) == c * sum_at(y, idx),
    decreases idx.len(),
{
    if idx.len() > 0 {
        lemma_sum_scaled(y, c, idx.drop_last());
        let s = sum_at(y, idx.drop_last());
        let v = y[idx.last() as int];
        assert(c * s + c * v == c * (s + v)) by (nonlinear_arith);
    }
}

} // verus!

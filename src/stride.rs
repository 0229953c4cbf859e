use vstd::prelude::*;

verus! {

/// Returns the `count` indices `start + step * k` for `k` in `0..count`.
pub fn stride_indices(start: usize, step: usize, count: usize) -> (r: Vec<usize>)
    requires
        count == 0 || start + step * (count - 1) <= usize::MAX,
    ensures
        r@.len() == count,
        forall|k: int| 0 <= k < count ==> r@[k] as int == start + step * k,
{
    let mut r: Vec<usize> = Vec::with_capacity(count);
    let mut next: usize = start;
    let mut k: usize = 0;
    while k < count
        invariant
            k <= count,
            r@.len() == k,
            k < count ==> next as int == start + step * k,
            count == 0 || start + step * (count - 1) <= usize::MAX,
            forall|j: int| 0 <= j < k ==> r@[j] as int == start + step * j,
        decreases count - k,
    {
        r.push(next);
        k = k + 1;
        if k < count {
            proof {
                assert(step * k <= step * (count - 1)) by (nonlinear_arith)
                    requires k <= count - 1, step >= 0;
                assert(step * k == step * (k - 1) + step) by (nonlinear_arith);
            }
            next = next + step;
        }
    }
    r
}

} // verus!

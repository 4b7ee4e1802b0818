//! Index arithmetic on sequences of frames: downsampling by a step.

use vstd::prelude::*;

verus! {

/// Ceiling of `a / b` for a positive `b`.
pub open spec fn div_ceil(a: nat, b: nat) -> nat
    recommends
        b > 0,
{
    if a % b == 0 { a / b } else { a / b + 1 }
}

/// The step actually taken: a factor of zero or one keeps every element.
pub open spec fn effective_step(factor: usize) -> nat {
    if factor <= 1 { 1 } else { factor as nat }
}

/// Below the ceiling of `n / step`, multiples of `step` stay below `n`.
pub proof fn lemma_index_below(n: nat, step: nat, k: nat)
    requires
        step >= 1,
        k < div_ceil(n, step),
    ensures
        k * step < n,
{
    let q = n / step;
    let r = n % step;
    assert(n == q * step + r && 0 <= r < step) by (nonlinear_arith)
        requires
            step >= 1,
            q == n / step,
            r == n % step,
    ;
    if r == 0 {
        assert(k < q);
        assert(k * step < q * step) by (nonlinear_arith)
            requires
                k < q,
                step >= 1,
        ;
    } else {
        assert(k <= q);
        assert(k * step <= q * step) by (nonlinear_arith)
            requires
                k <= q,
                step >= 1,
        ;
    }
}

/// Every `factor`-th element of `seq`, starting with the first (all of them for a factor
/// of zero or one): element `k` of the result is a clone of element `k * factor`.
pub fn downsample_seq<T: Clone>(seq: &Vec<T>, factor: usize) -> (r: Vec<T>)
    ensures
        r@.len() == div_ceil(seq@.len(), effective_step(factor)),
        forall|k: int|
            0 <= k < r@.len() ==> cloned::<T>(seq@[k * effective_step(factor)], #[trigger] r@[k]),
{
    let step: usize = if factor <= 1 { 1 } else { factor };
    let n = seq.len();
    let count: usize = if n % step == 0 {
        n / step
    } else {
        assert(step >= 2);
        assert(n / step < usize::MAX) by (nonlinear_arith)
            requires
                step >= 2,
                n <= usize::MAX,
        ;
        n / step + 1
    };
    let mut out: Vec<T> = Vec::new();
    let mut k: usize = 0;
    while k < count
        invariant
            step == effective_step(factor),
            step >= 1,
            n == seq@.len(),
            count == div_ceil(n as nat, step as nat),
            k <= count,
            out@.len() == k,
            forall|j: int| 0 <= j < out@.len() ==> cloned::<T>(seq@[j * step], #[trigger] out@[j]),
        decreases count - k,
    {
        proof {
            lemma_index_below(n as nat, step as nat, k as nat);
        }
        let idx = k * step;
        out.push(seq[idx].clone());
        k = k + 1;
    }
    out
}

} // verus!

use vstd::prelude::*;

verus! {

/// The order in which a scope releases the values it acquired, given in the
/// order of acquisition: the last acquired is released first.
pub fn release_order(acquired: &Vec<u64>) -> (r: Vec<u64>)
    ensures
        r@.len() == acquired@.len(),
        forall|i: int| 0 <= i < r@.len() ==> r@[i] == acquired@[acquired@.len() - 1 - i],
{
    let n = acquired.len();
    let mut r: Vec<u64> = Vec::with_capacity(n);
    let mut k: usize = n;
    while k > 0
        invariant
            k <= n,
            n == acquired@.len(),
            r@.len() == n - k,
            forall|i: int| 0 <= i < r@.len() ==> r@[i] == acquired@[n - 1 - i],
        decreases k,
    {
        k = k - 1;
        r.push(acquired[k]);
    }
    r
}

} // verus!

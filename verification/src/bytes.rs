//! Fixed-size fields of byte strings.

use vstd::prelude::*;

verus! {

/// Copies `N` bytes out of `bytes`, from `at` on.
pub fn field<const N: usize>(bytes: &[u8], at: usize) -> (r: [u8; N])
    requires
        at + N <= bytes@.len(),
    ensures
        r@ == bytes@.subrange(at as int, at + N),
{
    let mut r = [0u8; N];
    let mut i: usize = 0;
    let len = bytes.len();
    while i < N
        invariant
            i <= N,
            at + N <= bytes@.len() == len,
            forall|j: int| 0 <= j < i ==> r@[j] == bytes@[at + j],
        decreases N - i,
    {
        r[i] = bytes[at + i];
        i += 1;
    }
    assert(r@ =~= bytes@.subrange(at as int, at + N));
    r
}

} // verus!

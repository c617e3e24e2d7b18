//! Comparison of byte strings in time that does not depend on their
//! contents.

use vstd::prelude::*;
use crate::error::Unspecified;

verus! {

/// Succeeds exactly when `a` and `b` are equal. The contents are compared
/// without a branch on them; the lengths are not secret.
pub fn verify_slices_are_equal(a: &[u8], b: &[u8]) -> (r: Result<(), Unspecified>)
    ensures
        r.is_ok() == (a@ == b@),
{
    if a.len() != b.len() {
        return Err(Unspecified);
    }
    let n = a.len();
    let mut acc: u8 = 0;
    let mut i: usize = 0;
    while i < n
        invariant
            n == a@.len() == b@.len(),
            i <= n,
            (acc == 0) == (forall|j: int| 0 <= j < i ==> a@[j] == b@[j]),
        decreases n - i,
    {
        let x = a[i];
        let y = b[i];
        let old_acc = acc;
        acc = acc | (x ^ y);
        proof {
            assert((old_acc | (x ^ y)) == 0 <==> (old_acc == 0 && x == y)) by (bit_vector);
            if acc == 0 {
                assert forall|j: int| 0 <= j < i + 1 implies a@[j] == b@[j] by {}
            }
        }
        i = i + 1;
    }
    if acc == 0 {
        proof {
            assert(a@ =~= b@);
        }
        Ok(())
    } else {
        Err(Unspecified)
    }
}

} // verus!

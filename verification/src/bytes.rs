//! Byte-sequence comparisons: a plain one for table lookup, and a
//! fixed-scan one for digests.

use vstd::prelude::*;

verus! {

/// Byte-for-byte equality, returning at the first difference. Fit for
/// public values such as event names, not for digests.
pub fn bytes_eq(a: &[u8], b: &[u8]) -> (r: bool)
    ensures
        r == (a@ == b@),
{
    let n = a.len();
    if n != b.len() {
        return false;
    }
    let mut i: usize = 0;
    while i < n
        invariant
            n == a@.len(),
            n == b@.len(),
            i <= n,
            forall|j: int| 0 <= j < i ==> a@[j] == b@[j],
        decreases n - i,
    {
        if a[i] != b[i] {
            return false;
        }
        i += 1;
    }
    proof {
        assert(a@ =~= b@);
    }
    true
}

/// Equality of two digests that never returns early: every byte of equal-length
/// inputs is folded into one accumulator, so the time taken does not depend on
/// the length of a matching prefix.
pub fn digest_eq(a: &[u8], b: &[u8]) -> (r: bool)
    ensures
        r == (a@ == b@),
{
    let n = a.len();
    if n != b.len() {
        return false;
    }
    let mut acc: u8 = 0;
    let mut i: usize = 0;
    while i < n
        invariant
            n == a@.len(),
            n == b@.len(),
            i <= n,
            (acc == 0) <==> (forall|j: int| 0 <= j < i ==> a@[j] == b@[j]),
        decreases n - i,
    {
        let x = a[i];
        let y = b[i];
        let next = acc | (x ^ y);
        proof {
            assert((acc | (x ^ y)) == 0 <==> acc == 0 && x == y) by (bit_vector);
        }
        acc = next;
        i += 1;
    }
    if acc == 0 {
        proof {
            assert(a@ =~= b@);
        }
        true
    } else {
        false
    }
}

} // verus!

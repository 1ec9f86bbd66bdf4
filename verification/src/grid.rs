//! The collocation grid, at the code level.
//!
//! The grid itself is produced by the caller's spectral routine as
//! floating-point coordinates.  The one property the design demands of
//! it — strictly increasing collocation points — is still checkable
//! here, because the intended scalar encoding (the IEEE-754 bit pattern
//! of a nonnegative `f64`) is order-preserving.

use vstd::prelude::*;

verus! {

/// Whether the codes are strictly increasing under the unsigned order.
pub open spec fn strictly_increasing(s: Seq<u64>) -> bool {
    forall|i: int, j: int| 0 <= i < j < s.len() ==> s[i] < s[j]
}

/// Checks that the grid codes are strictly increasing, by one pass over
/// adjacent pairs.
pub fn grid_is_strictly_increasing(x: &Vec<u64>) -> (r: bool)
    ensures
        r == strictly_increasing(x@),
{
    let n = x.len();
    if n <= 1 {
        return true;
    }
    let mut i: usize = 1;
    while i < n
        invariant
            1 <= i <= n,
            n == x@.len(),
            forall|p: int, q: int| 0 <= p < q < i ==> x@[p] < x@[q],
        decreases n - i,
    {
        if x[i - 1] >= x[i] {
            assert(!strictly_increasing(x@)) by {
                assert(x@[i - 1] >= x@[i as int]);
            }
            return false;
        }
        assert forall|p: int, q: int| 0 <= p < q < i + 1 implies x@[p] < x@[q] by {
            if q == i {
                if p < i - 1 {
                    assert(x@[p] < x@[i - 1]);
                }
            }
        }
        i += 1;
    }
    true
}

} // verus!

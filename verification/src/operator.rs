//! Structural assembly of the dense update operator.
//!
//! A matrix is carried row-major as `Vec<Vec<u64>>`; each entry is an
//! opaque scalar code (in the intended use, the IEEE-754 bit pattern of
//! an `f64`).  The caller supplies the codes for the scalars zero and
//! one, so nothing here depends on the encoding.
//!
//! The one structural operation the schemes need is Dirichlet boundary
//! enforcement on the implicit-scheme system matrix: before `I - dt*D2`
//! is inverted, its first and last rows are overwritten with the
//! corresponding rows of the identity, so that the inversion itself
//! encodes "the solution at the boundary is determined directly, not via
//! the diffusion stencil".

use vstd::prelude::*;

verus! {

/// Row `i` of the `n`-point identity operator, as a sequence of codes.
pub open spec fn identity_row_seq(n: nat, i: int, zero: u64, one: u64) -> Seq<u64> {
    Seq::new(n, |j: int| if j == i { one } else { zero })
}

/// Whether `m` is a square matrix: every row is as long as the matrix is
/// high.
pub open spec fn is_square(m: Seq<Seq<u64>>) -> bool {
    forall|i: int| 0 <= i < m.len() ==> (#[trigger] m[i]).len() == m.len()
}

/// Builds row `i` of the `n`-point identity operator: the code for one
/// at column `i`, the code for zero everywhere else.
pub fn identity_row(n: usize, i: usize, zero: u64, one: u64) -> (r: Vec<u64>)
    requires
        i < n,
    ensures
        r@ == identity_row_seq(n as nat, i as int, zero, one),
{
    let mut r: Vec<u64> = Vec::new();
    let mut j: usize = 0;
    while j < n
        invariant
            j <= n,
            r@.len() == j,
            forall|k: int| 0 <= k < j ==> r@[k] == (if k == i { one } else { zero }),
        decreases n - j,
    {
        if j == i {
            r.push(one);
        } else {
            r.push(zero);
        }
        j += 1;
    }
    proof {
        assert(r@ =~= identity_row_seq(n as nat, i as int, zero, one));
    }
    r
}

/// Overwrites row 0 and row `n - 1` of the square matrix `a` with the
/// corresponding rows of the identity, leaving every interior row
/// untouched.
pub fn force_identity_boundary_rows(a: &mut Vec<Vec<u64>>, zero: u64, one: u64)
    requires
        old(a)@.len() >= 2,
        is_square(old(a).deep_view()),
    ensures
        final(a)@.len() == old(a)@.len(),
        is_square(final(a).deep_view()),
        final(a).deep_view()[0] == identity_row_seq(old(a)@.len() as nat, 0, zero, one),
        final(a).deep_view()[old(a)@.len() - 1] == identity_row_seq(
            old(a)@.len() as nat,
            old(a)@.len() - 1,
            zero,
            one,
        ),
        forall|i: int|
            1 <= i < old(a)@.len() - 1 ==> final(a).deep_view()[i] == old(a).deep_view()[i],
{
    let n = a.len();
    let first = identity_row(n, 0, zero, one);
    let last = identity_row(n, n - 1, zero, one);
    a[0] = first;
    let idx = n - 1;
    a[idx] = last;
    proof {
        assert forall|i: int| 0 <= i < a.deep_view().len() implies (#[trigger] a.deep_view()[i]).len()
            == a.deep_view().len() by {
            if i != 0 && i != idx {
                assert(a.deep_view()[i] == old(a).deep_view()[i]);
            }
        }
    }
}

} // verus!

//! The observable state of a heat simulation and its single-step update.
//!
//! [`HeatCore`] owns what the simulation mutates while it runs: the
//! solution vector (one scalar code per grid point) and the step count.
//! The caller owns the immutable numerics — grid, step size and update
//! operator — and hands the operator image of the solution to
//! [`HeatCore::apply_step`], which forces the Dirichlet boundary entries
//! and counts the step.  From the first step on, both endpoints of the
//! solution provably hold the boundary code.

use vstd::prelude::*;

use crate::errors::ConfigError;
use crate::scheme::validate_resolution;
use crate::scheme::MIN_RESOLUTION;

verus! {

/// Forces the first and last entry of a solution vector to the boundary
/// code, leaving every interior entry untouched.
pub fn enforce_boundary(u: &mut Vec<u64>, boundary: u64)
    requires
        old(u)@.len() >= 2,
    ensures
        final(u)@ == old(u)@.update(0, boundary).update(old(u)@.len() - 1, boundary),
{
    let n = u.len();
    u[0] = boundary;
    let idx = n - 1;
    u[idx] = boundary;
}

/// The mutable state of one simulation: solution samples and step count.
pub struct HeatCore {
    u: Vec<u64>,
    steps: u64,
    boundary: u64,
}

impl HeatCore {
    /// Number of grid points.
    pub closed spec fn spec_resolution(self) -> nat {
        self.u@.len()
    }

    /// The solution, one scalar code per grid point.
    pub closed spec fn spec_solution(self) -> Seq<u64> {
        self.u@
    }

    /// Number of steps taken since construction.
    pub closed spec fn spec_steps(self) -> u64 {
        self.steps
    }

    /// The scalar code of the fixed Dirichlet boundary value.
    pub closed spec fn spec_boundary(self) -> u64 {
        self.boundary
    }

    /// The boundary invariant: from the first step on, both endpoints of
    /// the solution hold the boundary code.
    pub open spec fn boundary_held(self) -> bool {
        self.spec_steps() >= 1 ==> (self.spec_solution()[0] == self.spec_boundary()
            && self.spec_solution()[self.spec_resolution() - 1] == self.spec_boundary())
    }

    /// Every constructor establishes and every method preserves this.
    pub open spec fn wf(self) -> bool {
        self.spec_resolution() >= MIN_RESOLUTION && self.boundary_held()
    }

    /// Builds a core in the constructed state: no steps taken and the
    /// solution equal to the boundary code — zero, in the intended
    /// encoding — at every grid point.  Fails for a resolution below the
    /// stencil minimum.
    pub fn new(n: usize, boundary: u64) -> (r: Result<HeatCore, ConfigError>)
        ensures
            n < MIN_RESOLUTION ==> r == Err::<HeatCore, ConfigError>(
                ConfigError::ResolutionTooSmall,
            ),
            n >= MIN_RESOLUTION ==> r is Ok,
            r is Ok ==> {
                let c = r.unwrap();
                &&& c.wf()
                &&& c.spec_resolution() == n
                &&& c.spec_steps() == 0
                &&& c.spec_boundary() == boundary
                &&& c.spec_solution() == Seq::new(n as nat, |j: int| boundary)
            },
    {
        match validate_resolution(n) {
            Ok(()) => {
                let mut u: Vec<u64> = Vec::new();
                let mut j: usize = 0;
                while j < n
                    invariant
                        j <= n,
                        u@.len() == j,
                        forall|k: int| 0 <= k < j ==> u@[k] == boundary,
                    decreases n - j,
                {
                    u.push(boundary);
                    j += 1;
                }
                proof {
                    assert(u@ =~= Seq::new(n as nat, |j: int| boundary));
                }
                Ok(HeatCore { u, steps: 0, boundary })
            },
            Err(e) => Err(e),
        }
    }

    /// Replaces the solution with a caller-supplied initial condition,
    /// evaluated point-wise on the grid by the caller.  Allowed only in
    /// the constructed state, before the first step.
    pub fn set_initial(&mut self, u0: Vec<u64>)
        requires
            old(self).wf(),
            old(self).spec_steps() == 0,
            u0@.len() == old(self).spec_resolution(),
        ensures
            final(self).wf(),
            final(self).spec_solution() == u0@,
            final(self).spec_steps() == 0,
            final(self).spec_boundary() == old(self).spec_boundary(),
            final(self).spec_resolution() == old(self).spec_resolution(),
    {
        self.u = u0;
    }

    /// One time step.  The caller computes the operator image `w = M * u`
    /// of the current solution; this installs it, forces both boundary
    /// entries to the boundary code, and counts the step.
    pub fn apply_step(&mut self, w: Vec<u64>)
        requires
            old(self).wf(),
            w@.len() == old(self).spec_resolution(),
            old(self).spec_steps() < u64::MAX,
        ensures
            final(self).wf(),
            final(self).spec_resolution() == old(self).spec_resolution(),
            final(self).spec_boundary() == old(self).spec_boundary(),
            final(self).spec_steps() == old(self).spec_steps() + 1,
            final(self).spec_solution() == w@.update(0, old(self).spec_boundary()).update(
                w@.len() - 1,
                old(self).spec_boundary(),
            ),
            final(self).spec_solution()[0] == final(self).spec_boundary(),
            final(self).spec_solution()[final(self).spec_resolution() - 1]
                == final(self).spec_boundary(),
    {
        self.u = w;
        let b = self.boundary;
        enforce_boundary(&mut self.u, b);
        self.steps = self.steps + 1;
    }

    /// Number of grid points.
    pub fn resolution(&self) -> (n: usize)
        ensures
            n == self.spec_resolution(),
    {
        self.u.len()
    }

    /// Number of steps taken since construction.
    pub fn step_count(&self) -> (k: u64)
        ensures
            k == self.spec_steps(),
    {
        self.steps
    }

    /// The scalar code of the fixed boundary value.
    pub fn boundary_code(&self) -> (b: u64)
        ensures
            b == self.spec_boundary(),
    {
        self.boundary
    }

    /// Read-only view of the solution vector.
    pub fn solution(&self) -> (u: &Vec<u64>)
        ensures
            u@ == self.spec_solution(),
    {
        &self.u
    }
}

/// Boundary invariant of the simulation: after any number `k >= 1` of
/// steps, the solution holds the boundary value at both endpoints — for
/// every well-formed core, however it was driven there.
pub proof fn lemma_boundary_invariant(c: HeatCore)
    requires
        c.wf(),
        c.spec_steps() >= 1,
    ensures
        c.spec_solution()[0] == c.spec_boundary(),
        c.spec_solution()[c.spec_resolution() - 1] == c.spec_boundary(),
{
}

} // verus!

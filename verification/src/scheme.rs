//! Time-stepping schemes and construction-time validation.
//!
//! All failures of the engine surface here, before any matrix work is
//! done: an unknown scheme label and a resolution below the stencil
//! minimum are both rejected with a [`ConfigError`].

use vstd::prelude::*;
use vstd::string::StrSliceExecFns;

use crate::errors::ConfigError;

verus! {

/// The two time-stepping schemes the engine offers.
///
/// Explicit stepping applies `M = I + dt*D2` directly and is only
/// conditionally stable; implicit stepping applies the inverse of the
/// boundary-adjusted `I - dt*D2` and is unconditionally stable.
#[derive(Clone, Copy, Debug, PartialEq, Eq, Structural)]
pub enum Scheme {
    Explicit,
    Implicit,
}

/// Fewest grid points a differentiation stencil of order two accepts.
pub const MIN_RESOLUTION: usize = 3;

/// Character-wise equality of two string slices.
fn str_eq(a: &str, b: &str) -> (r: bool)
    ensures
        r == (a@ == b@),
{
    let a_len = a.unicode_len();
    let b_len = b.unicode_len();
    if a_len != b_len {
        return false;
    }
    let mut i: usize = 0;
    while i < a_len
        invariant
            i <= a_len,
            a_len == a@.len(),
            b_len == b@.len(),
            a_len == b_len,
            forall|j: int| 0 <= j < i ==> a@[j] == b@[j],
        decreases a_len - i,
    {
        if a.get_char(i) != b.get_char(i) {
            assert(a@[i as int] != b@[i as int]);
            return false;
        }
        i += 1;
    }
    proof {
        assert(a@ =~= b@);
    }
    true
}

impl Scheme {
    /// Validates a free-text scheme label against the closed set of
    /// schemes.  Any label other than `"Explicit"` or `"Implicit"` is
    /// rejected before any further construction work.
    pub fn parse(label: &str) -> (r: Result<Scheme, ConfigError>)
        ensures
            label@ == "Explicit"@ ==> r == Ok::<Scheme, ConfigError>(Scheme::Explicit),
            label@ == "Implicit"@ ==> r == Ok::<Scheme, ConfigError>(Scheme::Implicit),
            label@ != "Explicit"@ && label@ != "Implicit"@ ==> r == Err::<Scheme, ConfigError>(
                ConfigError::UnknownScheme,
            ),
    {
        proof {
            reveal_strlit("Explicit");
            reveal_strlit("Implicit");
            assert(("Explicit"@)[0] != ("Implicit"@)[0]);
            assert("Explicit"@ != "Implicit"@);
        }
        if str_eq(label, "Explicit") {
            Ok(Scheme::Explicit)
        } else if str_eq(label, "Implicit") {
            Ok(Scheme::Implicit)
        } else {
            Err(ConfigError::UnknownScheme)
        }
    }

    /// The stability safety factor that step-size selection uses for this
    /// scheme, given in tenths: 4 tenths for the conditionally stable
    /// explicit scheme, 200 tenths (that is, 20) for the unconditionally
    /// stable implicit scheme.
    pub fn safety_tenths(&self) -> (t: u64)
        ensures
            *self is Explicit ==> t == 4,
            *self is Implicit ==> t == 200,
    {
        match self {
            Scheme::Explicit => 4,
            Scheme::Implicit => 200,
        }
    }
}

/// Checks a requested grid resolution against the stencil minimum.
pub fn validate_resolution(n: usize) -> (r: Result<(), ConfigError>)
    ensures
        n >= MIN_RESOLUTION ==> r == Ok::<(), ConfigError>(()),
        n < MIN_RESOLUTION ==> r == Err::<(), ConfigError>(ConfigError::ResolutionTooSmall),
{
    if n >= MIN_RESOLUTION {
        Ok(())
    } else {
        Err(ConfigError::ResolutionTooSmall)
    }
}

/// Full construction-time validation: the scheme label is checked before
/// the resolution, so an unknown label is reported even when the
/// resolution is also too small.
pub fn validate_config(n: usize, label: &str) -> (r: Result<Scheme, ConfigError>)
    ensures
        label@ != "Explicit"@ && label@ != "Implicit"@ ==> r == Err::<Scheme, ConfigError>(
            ConfigError::UnknownScheme,
        ),
        label@ == "Explicit"@ && n >= MIN_RESOLUTION ==> r == Ok::<Scheme, ConfigError>(
            Scheme::Explicit,
        ),
        label@ == "Implicit"@ && n >= MIN_RESOLUTION ==> r == Ok::<Scheme, ConfigError>(
            Scheme::Implicit,
        ),
        (label@ == "Explicit"@ || label@ == "Implicit"@) && n < MIN_RESOLUTION ==> r
            == Err::<Scheme, ConfigError>(ConfigError::ResolutionTooSmall),
{
    let scheme = match Scheme::parse(label) {
        Ok(s) => s,
        Err(e) => {
            return Err(e);
        },
    };
    match validate_resolution(n) {
        Ok(()) => Ok(scheme),
        Err(e) => Err(e),
    }
}

} // verus!

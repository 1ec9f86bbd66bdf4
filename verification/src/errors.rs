//! Error taxonomy of the simulation core.
//!
//! Every failure surfaces at construction time; once a simulation is
//! built, stepping is total.

use vstd::prelude::*;

verus! {

/// A configuration the engine rejects before any matrix work is done.
#[derive(Clone, Copy, Debug, PartialEq, Eq, Structural)]
pub enum ConfigError {
    /// The requested grid resolution is below the minimum of three points
    /// that a second-order differentiation stencil needs.
    ResolutionTooSmall,
    /// The scheme label is neither `"Explicit"` nor `"Implicit"`.
    UnknownScheme,
    /// The requested total simulation time is not positive.
    NonPositiveMaxTime,
}

/// A numerical failure while assembling the update operator.
#[derive(Clone, Copy, Debug, PartialEq, Eq, Structural)]
pub enum NumericalError {
    /// The implicit-scheme system matrix could not be inverted.
    SingularMatrix,
}

} // verus!

//! Verified core of a one-dimensional heat-equation integrator.
//!
//! The engine integrates the heat equation on a bounded interval with
//! Dirichlet boundary values, using a dense spectral update operator and
//! either an explicit or an implicit time-stepping scheme.
//!
//! Scalar values (solution samples, matrix entries, times) are carried as
//! opaque 64-bit codes chosen by the caller; the intended encoding is the
//! IEEE-754 bit pattern of an `f64`.  Everything the engine states and
//! proves — configuration validation, boundary-row surgery on the update
//! operator, boundary enforcement on the solution, step accounting and the
//! driving loop — is exact on those codes and independent of the encoding.
//! The floating-point arithmetic itself (building the differentiation
//! matrix, scaling and inverting the operator, the matrix–vector product)
//! is supplied by the caller and treated as an external oracle.

mod errors;
mod grid;
mod operator;
mod scheme;
mod state;
mod utils;

pub use errors::ConfigError;
pub use errors::NumericalError;
pub use grid::grid_is_strictly_increasing;
pub use grid::strictly_increasing;
pub use operator::force_identity_boundary_rows;
pub use operator::identity_row;
pub use operator::identity_row_seq;
pub use operator::is_square;
pub use scheme::Scheme;
pub use scheme::MIN_RESOLUTION;
pub use scheme::validate_config;
pub use scheme::validate_resolution;
pub use state::enforce_boundary;
pub use state::lemma_boundary_invariant;
pub use state::HeatCore;
pub use utils::iterate_to_max_time;
pub use utils::GetDeltaT;
pub use utils::Plot;
pub use utils::ProgressSink;
pub use utils::Update;

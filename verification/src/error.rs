//! The error taxonomy of the harness: bad run parameters, an out-of-range
//! subject index, a failure inside the external proving backend, or a failure
//! to write the result file.

use vstd::prelude::*;

verus! {

/// Why a benchmark run was aborted. No phase is retried: every error is
/// terminal for the run that raised it.
#[derive(Clone, Copy, Debug, PartialEq, Eq, Structural)]
pub enum BenchError {
    /// Population size or asset count does not fit the circuit's shape.
    InvalidConfiguration,
    /// The selected subject index lies outside the population.
    InvalidSubject,
    /// The external proving backend reported an error.
    BackendFailure,
    /// The result file could not be created or written.
    IoError,
}

} // verus!

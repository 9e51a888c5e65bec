//! Top-level error taxonomy for the unseal service.

use vstd::prelude::*;

verus! {

/// The outside error type carried by [`Error::IoError`].
///
/// Relies on `std::io::Error` only as an opaque value: nothing inside it is
/// read by the library.
#[verifier::external_type_specification]
#[verifier::external_body]
pub struct ExIoError(std::io::Error);

/// What went wrong, at the granularity the process reports to the operator.
#[derive(Debug)]
pub enum Error {
    /// The configuration could not be loaded or validated.
    ConfigError,
    /// The secret provider could not be reached or rejected the credentials.
    BitwardenError,
    /// A worker could not be constructed for a configured node.
    WorkerError,
    /// An input or output operation failed during startup.
    IoError(std::io::Error),
}

} // verus!

//! Error taxonomy of the core.

use vstd::prelude::*;

verus! {

/// Every failure a core operation can report. Errors are returned
/// synchronously and an operation that fails leaves the state unchanged.
#[derive(Clone, Copy, Debug, PartialEq, Eq, Structural)]
pub enum CoreError {
    /// Invalid key-type name at initialization or rotation.
    ConfigurationError,
    /// A privileged operation was attempted by a caller other than the admin.
    AuthorizationError,
    /// The signature did not verify, or key or signature bytes were malformed.
    VerificationError,
    /// A recognized key type that currently has no active verifier.
    UnsupportedKeyType,
    /// Rejected request content, such as empty attached funds on a transfer.
    ValidationError,
}

} // verus!

use vstd::prelude::*;

verus! {

/// The ways in which a registry operation can fail.
#[derive(Clone, Copy, Debug, PartialEq, Eq, Structural)]
pub enum RegistryError {
    /// Malformed input: a key of the wrong length, or an oversized company id.
    ValidationError,
    /// The acting identity did not sign the request.
    AuthorizationError,
    /// A referenced employee record does not exist.
    NotFound,
    /// The target address already holds a record.
    AlreadyExists,
}

} // verus!

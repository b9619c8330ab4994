use vstd::prelude::*;

use crate::error::RegistryError;

verus! {

/// The identity acting on a request, as the runtime presents it: its public key,
/// and whether the runtime found a valid signature by it over the request.
#[derive(Clone, Copy, Debug)]
pub struct Authority {
    pub key: [u8; 32],
    pub is_signer: bool,
}

/// Admits a request only when the acting identity signed it.
/// Any signer is admitted: there is no per-company or per-employee policy.
pub fn verify_authority(authority: &Authority) -> (r: Result<(), RegistryError>)
    ensures
        authority.is_signer ==> r is Ok,
        !authority.is_signer ==> r == Err::<(), RegistryError>(RegistryError::AuthorizationError),
{
    if authority.is_signer {
        Ok(())
    } else {
        Err(RegistryError::AuthorizationError)
    }
}

} // verus!

use vstd::prelude::*;
use crate::error::VerityError;
use crate::state::AttestorState;

verus! {

/// Create the per-attestor nonce counter. The record store hands in the
/// freshly allocated (zeroed) singleton for `attestor`; an identity of 0 in
/// it marks it as not yet initialized, and initializing twice is refused.
pub fn handler(st: &mut AttestorState, attestor: u64) -> (r: Result<(), VerityError>)
    ensures
        r is Ok <==> old(st).attestor == 0,
        r is Err ==> r->Err_0 == VerityError::AlreadyInitialized && *final(st) == *old(st),
        r is Ok ==> *final(st) == (AttestorState { attestor, last_nonce: 0 }),
{
    if st.attestor != 0 {
        return Err(VerityError::AlreadyInitialized);
    }
    st.attestor = attestor;
    st.last_nonce = 0;
    Ok(())
}

} // verus!

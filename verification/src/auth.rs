//! The identity and authorization guard: pure, side-effect-free, used by
//! every owner-gated operation.

use vstd::prelude::*;

verus! {

use crate::errors::BlogError;
use crate::state::{BlogState, Pubkey};
use crate::transition::authorized;

/// Succeeds iff the caller is the record's stored owner identity; otherwise
/// fails with `Unauthorized`. Changes nothing.
pub fn check_authorized(caller: &Pubkey, state: &BlogState) -> (r: Result<(), BlogError>)
    ensures
        r is Ok <==> authorized(*caller, state@),
        r is Err ==> r == Err::<(), BlogError>(BlogError::Unauthorized),
{
    if caller.id == state.authority.id {
        Ok(())
    } else {
        Err(BlogError::Unauthorized)
    }
}

} // verus!

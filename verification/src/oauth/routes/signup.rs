//! The sign-up decision.
use vstd::prelude::*;

use crate::oauth::error::Error;

verus! {

/// The outcome of a sign-up: a name already taken is a conflict; otherwise the
/// user is registered and answered with `201 Created`.
pub fn sign_up_step(name_taken: bool) -> (r: Result<u16, Error>)
    ensures
        name_taken ==> (r matches Err(e) && e is ResourceConflict),
        !name_taken ==> (r matches Ok(status) && status == 201),
{
    if name_taken {
        Err(Error::ResourceConflict)
    } else {
        Ok(201)
    }
}

} // verus!

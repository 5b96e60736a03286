use vstd::prelude::*;

use crate::error::SystemError;

verus! {

/// The (empty) bound inputs of the `initialize` entrypoint: it declares no
/// component roles and touches no world state.
pub struct Initialize {}

/// The program entrypoint the host calls once at bootstrap. It mutates
/// nothing and always succeeds; it exists only to satisfy the host's
/// bootstrapping contract.
pub fn initialize(_ctx: Initialize) -> (r: Result<(), SystemError>)
    ensures
        r is Ok,
{
    Ok(())
}

} // verus!

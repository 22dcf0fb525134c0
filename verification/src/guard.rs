//! The access guard evaluated before any mutating operation proceeds.
//!
//! The guard is a pure function of the current pause flag, the current admin
//! identity and the caller. The pause check comes first, then the admin
//! check: pausing halts every participant-visible effect regardless of who
//! calls. Governance recovery operations (admin rotation, pausing itself,
//! upgrade) are pause-exempt and apply only the admin check.
use vstd::prelude::*;

use crate::types::{Address, ContractError};

verus! {

/// What the guard decides: `Err(ContractPaused)` when the operation is
/// pause-gated and the registry is paused, else `Err(Unauthorized)` when the
/// caller is not the admin, else `Ok`.
pub open spec fn spec_guard(
    paused: bool,
    admin: Address,
    sender: Address,
    pause_gated: bool,
) -> Result<(), ContractError> {
    if pause_gated && paused {
        Err(ContractError::ContractPaused)
    } else if sender != admin {
        Err(ContractError::Unauthorized)
    } else {
        Ok(())
    }
}

/// Evaluates the guard: pause check first (for pause-gated operations),
/// then the admin check against the caller.
pub fn check_access(paused: bool, admin: Address, sender: Address, pause_gated: bool) -> (r:
    Result<(), ContractError>)
    ensures
        r == spec_guard(paused, admin, sender, pause_gated),
{
    if pause_gated && paused {
        Err(ContractError::ContractPaused)
    } else if sender != admin {
        Err(ContractError::Unauthorized)
    } else {
        Ok(())
    }
}

} // verus!

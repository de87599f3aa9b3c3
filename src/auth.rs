//! The one place where a caller's identity is held against the configuration.
use vstd::prelude::*;
use crate::state::{Address, ISAConfig, IsaError};

verus! {

/// The privileged roles an operation may demand.
#[derive(Clone, Copy, Debug, PartialEq, Eq, Structural)]
pub enum Role {
    Admin,
    Oracle,
    University,
}

/// The identity the configuration holds for `role`.
pub open spec fn holder(config: ISAConfig, role: Role) -> Address {
    match role {
        Role::Admin => config.admin,
        Role::Oracle => config.oracle,
        Role::University => config.university,
    }
}

/// The error a caller who does not hold `role` gets.
pub open spec fn refusal(role: Role) -> IsaError {
    match role {
        Role::Admin => IsaError::UnauthorizedAdmin,
        Role::Oracle => IsaError::UnauthorizedOracle,
        Role::University => IsaError::UnauthorizedUniversity,
    }
}

/// Admits `caller` exactly when it is the identity configured for `role`.
pub fn authorize(config: &ISAConfig, role: Role, caller: &Address) -> (r: Result<(), IsaError>)
    ensures
        caller@ == holder(*config, role)@ ==> r is Ok,
        caller@ != holder(*config, role)@ ==> r == Err::<(), IsaError>(refusal(role)),
{
    let (expected, refused) = match role {
        Role::Admin => (&config.admin, IsaError::UnauthorizedAdmin),
        Role::Oracle => (&config.oracle, IsaError::UnauthorizedOracle),
        Role::University => (&config.university, IsaError::UnauthorizedUniversity),
    };
    if caller.same(expected) {
        Ok(())
    } else {
        Err(refused)
    }
}

} // verus!

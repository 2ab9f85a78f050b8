//! The authorization gate: a pure equality check against the stored admin.
use vstd::prelude::*;

use crate::error::ContractError;

verus! {

/// Admits `claimed` only when it is byte for byte the stored admin.
pub fn authorize(claimed: &String, admin: &String) -> (r: Result<(), ContractError>)
    ensures
        r == (if claimed@ == admin@ { Ok(()) } else { Err(ContractError::Unauthorized) }),
{
    if claimed.eq(admin) {
        Ok(())
    } else {
        Err(ContractError::Unauthorized)
    }
}

} // verus!

//! The errors that requests and callbacks are rejected with.
use vstd::prelude::*;

verus! {

/// Every way a request or a callback can be rejected.
#[derive(Debug, Clone, PartialEq, Eq, Structural)]
pub enum ContractError {
    /// The caller is not the stored admin.
    Unauthorized,
    /// A withdrawal found the custodian's balance empty.
    NoFundsFound,
    /// The address validator rejected a supplied address.
    InvalidAddress,
    /// A callback arrived with an identifier outside the closed set.
    UnknownReplyId { id: u64 },
    /// A callback's payload did not have the shape its identifier calls for.
    ParseFailure,
    /// A deployment was requested, or its result delivered, after the factory was bound.
    AlreadyDeployed,
}

} // verus!

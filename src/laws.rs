//! Properties that relate several operations, proved over their specifications.
use vstd::prelude::*;

use crate::callback::SubMsgResult;
use crate::custodian::withdraw_decision;
use crate::error::ContractError;
use crate::factory::{
    admin_of, bound_to, committed, initial_state, is_pending, reads_as, reply_result, ReplyOutcome,
    State, INSTANTIATE_REPLY_ID, REDIRECT_FUNDS_ID,
};

verus! {

/// A factory instantiated by `admin` answers the admin query with `admin`,
/// whatever code it was set to deploy.
pub proof fn factory_admin_is_instantiator(admin: String, contract_id: u64)
    ensures
        admin_of(initial_state(admin, contract_id)) == admin,
{
}

/// From a pending record, a successful deployment callback carrying an
/// address `x` that the validator accepts binds the factory to `x`; a callback
/// for a failed sub-message, a malformed one, or one whose address the
/// validator rejects, leaves it pending.
pub proof fn deployment_binds_on_success_only(
    s: State,
    x: String,
    reason: String,
    o: ReplyOutcome,
    address_valid: bool,
)
    requires
        is_pending(s),
    ensures
        committed(
            s,
            reply_result(
                s,
                INSTANTIATE_REPLY_ID,
                ReplyOutcome::Instantiated { contract_address: x },
                true,
            ),
        ).contract_addr == Some(x),
        reads_as(INSTANTIATE_REPLY_ID, SubMsgResult::Failed { reason }, o) ==> is_pending(
            committed(s, reply_result(s, INSTANTIATE_REPLY_ID, o, address_valid)),
        ),
        is_pending(
            committed(s, reply_result(s, INSTANTIATE_REPLY_ID, ReplyOutcome::Unparsable, address_valid)),
        ),
        is_pending(
            committed(
                s,
                reply_result(
                    s,
                    INSTANTIATE_REPLY_ID,
                    ReplyOutcome::Instantiated { contract_address: x },
                    false,
                ),
            ),
        ),
{
}

/// Two deployments requested from a pending factory are both issued (a request
/// leaves the record pending); of their successful callbacks, the first one
/// delivered binds the address and the second is refused with the record kept.
pub proof fn first_delivered_deployment_wins(s: State, x: String, y: String)
    requires
        is_pending(s),
    ensures
        ({
            let first = committed(
                s,
                reply_result(
                    s,
                    INSTANTIATE_REPLY_ID,
                    ReplyOutcome::Instantiated { contract_address: x },
                    true,
                ),
            );
            let second = reply_result(
                first,
                INSTANTIATE_REPLY_ID,
                ReplyOutcome::Instantiated { contract_address: y },
                true,
            );
            &&& first == bound_to(s, x)
            &&& second == Err::<State, ContractError>(ContractError::AlreadyDeployed)
            &&& committed(first, second).contract_addr == Some(x)
        }),
{
}

/// A callback whose identifier is outside the closed set fails with
/// `UnknownReplyId` and leaves the record as it was.
pub proof fn unknown_correlation_is_rejected(
    s: State,
    id: u64,
    o: ReplyOutcome,
    address_valid: bool,
)
    requires
        id != INSTANTIATE_REPLY_ID,
        id != REDIRECT_FUNDS_ID,
    ensures
        reply_result(s, id, o, address_valid) == Err::<State, ContractError>(
            ContractError::UnknownReplyId { id },
        ),
        committed(s, reply_result(s, id, o, address_valid)) == s,
{
}

/// A withdrawal by the admin from a non-empty balance goes to the admin when no
/// destination is given, and to the destination when the validator accepts it.
pub proof fn withdrawal_goes_to_destination(
    admin: Seq<char>,
    n_funds: nat,
    to: String,
)
    requires
        n_funds > 0,
    ensures
        withdraw_decision(admin, admin, n_funds, None, false) == Ok::<Seq<char>, ContractError>(admin),
        withdraw_decision(admin, admin, n_funds, None, true) == Ok::<Seq<char>, ContractError>(admin),
        withdraw_decision(admin, admin, n_funds, Some(to), true) == Ok::<Seq<char>, ContractError>(to@),
{
}

/// Any caller other than the admin is refused with `Unauthorized` when there
/// are funds to withdraw, whatever destination it names.
pub proof fn non_admin_withdrawal_is_unauthorized(
    admin: Seq<char>,
    sender: Seq<char>,
    n_funds: nat,
    to: Option<String>,
    address_valid: bool,
)
    requires
        sender != admin,
        n_funds > 0,
    ensures
        withdraw_decision(admin, sender, n_funds, to, address_valid) == Err::<Seq<char>, ContractError>(
            ContractError::Unauthorized,
        ),
{
}

/// A withdrawal from an empty balance is refused with `NoFundsFound`, whoever
/// asks and wherever to.
pub proof fn empty_withdrawal_finds_no_funds(
    admin: Seq<char>,
    sender: Seq<char>,
    to: Option<String>,
    address_valid: bool,
)
    ensures
        withdraw_decision(admin, sender, 0, to, address_valid) == Err::<Seq<char>, ContractError>(
            ContractError::NoFundsFound,
        ),
{
}

} // verus!

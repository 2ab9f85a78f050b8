//! The factory: deploys an actor and binds its address once the deployment's
//! callback reports success; callbacks are routed by a closed set of identifiers.
use vstd::prelude::*;

use crate::callback::{
    acknowledges, deployed_address, parse_reply_execute_data, parse_reply_instantiate_data,
    SubMsgResult,
};
use crate::error::ContractError;
use crate::response::{
    attribute, attribute_is, decimal, decimal_string, empty_response, Coin, CosmosMsg, ReplyOn,
    Response, SubMsg,
};

verus! {

/// Correlation identifier of the deployment request.
pub const INSTANTIATE_REPLY_ID: u64 = 0;

/// Correlation identifier of the fund transfer.
pub const REDIRECT_FUNDS_ID: u64 = 1;

/// Arguments of instantiation: the code the factory deploys.
#[derive(Debug, Clone, PartialEq, Eq, Structural)]
pub struct InstantiateMsg {
    pub contract_id: u64,
}

/// The (empty) initialization payload handed to the deployed actor.
#[derive(Debug, Clone, PartialEq, Eq, Structural)]
pub struct InstantiateMsgB {}

#[derive(Debug, Clone)]
pub enum ExecuteMsg {
    InstantiateNewContract {},
    RedirectFunds { to_address: String, amount: u128 },
}

#[derive(Debug, Clone, PartialEq, Eq, Structural)]
pub enum QueryMsg {
    GetAdmin {},
}

#[derive(Debug, Clone)]
pub struct GetAdminResponse {
    pub admin: String,
}

/// The factory's stored record. `contract_addr` is `None` while pending and
/// `Some` once a deployment result has been accepted.
#[derive(Debug, Clone)]
pub struct State {
    pub admin: String,
    pub contract_id: u64,
    pub contract_addr: Option<String>,
}

/// The two kinds of outstanding operation a callback can complete.
#[derive(Debug, Clone, Copy, PartialEq, Eq, Structural)]
pub enum Correlation {
    Deployment,
    Transfer,
}

/// A callback's payload, read by the shape its identifier calls for.
#[derive(Debug, Clone)]
pub enum ReplyOutcome {
    /// A deployment result naming the new actor.
    Instantiated { contract_address: String },
    /// A transfer acknowledgment.
    Executed,
    /// A failed sub-message, or a payload not of the expected shape.
    Unparsable,
}

pub open spec fn initial_state(admin: String, contract_id: u64) -> State {
    State { admin, contract_id, contract_addr: None }
}

pub open spec fn is_pending(s: State) -> bool {
    s.contract_addr is None
}

/// The record once `addr` has been accepted as the deployed actor.
pub open spec fn bound_to(s: State, addr: String) -> State {
    State { admin: s.admin, contract_id: s.contract_id, contract_addr: Some(addr) }
}

pub open spec fn correlation_of(id: u64) -> Option<Correlation> {
    if id == INSTANTIATE_REPLY_ID {
        Some(Correlation::Deployment)
    } else if id == REDIRECT_FUNDS_ID {
        Some(Correlation::Transfer)
    } else {
        None
    }
}

/// `o` is what a callback under `id` with `result` reads as.
pub open spec fn reads_as(id: u64, result: SubMsgResult, o: ReplyOutcome) -> bool {
    match correlation_of(id) {
        Some(Correlation::Deployment) => match deployed_address(result) {
            Some(a) => o is Instantiated && o->contract_address@ == a,
            None => o is Unparsable,
        },
        Some(Correlation::Transfer) => if acknowledges(result) {
            o is Executed
        } else {
            o is Unparsable
        },
        None => o is Unparsable,
    }
}

/// `address_valid` is the address validator's verdict on the address a
/// deployment result names; it is not read for other payloads.
pub open spec fn deployment_result(s: State, o: ReplyOutcome, address_valid: bool) -> Result<
    State,
    ContractError,
> {
    match o {
        ReplyOutcome::Instantiated { contract_address } => {
            if !address_valid {
                Err(ContractError::InvalidAddress)
            } else if !is_pending(s) {
                Err(ContractError::AlreadyDeployed)
            } else {
                Ok(bound_to(s, contract_address))
            }
        },
        _ => Err(ContractError::ParseFailure),
    }
}

pub open spec fn transfer_result(s: State, o: ReplyOutcome) -> Result<State, ContractError> {
    match o {
        ReplyOutcome::Executed => Ok(s),
        _ => Err(ContractError::ParseFailure),
    }
}

/// The record that a callback with identifier `id` commits, or the error it fails with.
pub open spec fn reply_result(s: State, id: u64, o: ReplyOutcome, address_valid: bool) -> Result<
    State,
    ContractError,
> {
    match correlation_of(id) {
        Some(Correlation::Deployment) => deployment_result(s, o, address_valid),
        Some(Correlation::Transfer) => transfer_result(s, o),
        None => Err(ContractError::UnknownReplyId { id }),
    }
}

/// The stored record after an invocation: the new one on success, the old one on failure.
pub open spec fn committed(s: State, r: Result<State, ContractError>) -> State {
    match r {
        Ok(n) => n,
        Err(_) => s,
    }
}

/// `resp` issues exactly one deployment of `code_id`, called back on success
/// under the deployment identifier.
pub open spec fn is_deployment_request(resp: Response, code_id: u64) -> bool {
    &&& resp.messages@.len() == 1
    &&& resp.attributes@.len() == 0
    &&& resp.messages@[0].id == INSTANTIATE_REPLY_ID
    &&& resp.messages@[0].reply_on == ReplyOn::Success
    &&& match resp.messages@[0].msg {
        CosmosMsg::Instantiate { code_id: c, label } => c == code_id && label@ == "contract b"@,
        _ => false,
    }
}

/// `resp` issues exactly one transfer of `amount` ujuno to `to`, called back
/// on success under the transfer identifier.
pub open spec fn is_redirect(resp: Response, to: Seq<char>, amount: u128) -> bool {
    &&& resp.messages@.len() == 1
    &&& resp.messages@[0].id == REDIRECT_FUNDS_ID
    &&& resp.messages@[0].reply_on == ReplyOn::Success
    &&& match resp.messages@[0].msg {
        CosmosMsg::BankSend { to_address, amount: coins } => {
            &&& to_address@ == to
            &&& coins@.len() == 1
            &&& coins@[0].denom@ == "ujuno"@
            &&& coins@[0].amount == amount
        },
        _ => false,
    }
    &&& resp.attributes@.len() == 3
    &&& attribute_is(resp.attributes@[0], "action"@, "redirect_funds"@)
    &&& attribute_is(resp.attributes@[1], "to_address"@, to)
    &&& attribute_is(resp.attributes@[2], "amount"@, decimal(amount as nat))
}

/// Creates the factory's record, pending, with the sender as admin.
pub fn instantiate(sender: String, msg: InstantiateMsg) -> (r: (State, Response))
    ensures
        r.0 == initial_state(sender, msg.contract_id),
        r.1.messages@.len() == 0,
        r.1.attributes@.len() == 2,
        attribute_is(r.1.attributes@[0], "method"@, "instantiate"@),
        attribute_is(r.1.attributes@[1], "admin"@, sender@),
{
    let state = State { admin: sender.clone(), contract_id: msg.contract_id, contract_addr: None };
    let mut resp = empty_response();
    resp.attributes.push(attribute("method", "instantiate".to_owned()));
    resp.attributes.push(attribute("admin", sender));
    proof {
        reveal_strlit("method");
        reveal_strlit("instantiate");
        reveal_strlit("admin");
    }
    (state, resp)
}

/// Runs an inbound request. `address_valid` is the address validator's verdict
/// on the address that a `RedirectFunds` request names; it is not read otherwise.
pub fn execute(state: &State, msg: ExecuteMsg, address_valid: bool) -> (r: Result<
    Response,
    ContractError,
>)
    ensures
        msg is InstantiateNewContract && is_pending(*state) ==> r is Ok && is_deployment_request(
            r->Ok_0,
            state.contract_id,
        ),
        msg is InstantiateNewContract && !is_pending(*state) ==> r == Err::<Response, ContractError>(
            ContractError::AlreadyDeployed,
        ),
        msg is RedirectFunds && address_valid ==> r is Ok && is_redirect(
            r->Ok_0,
            msg->to_address@,
            msg->amount,
        ),
        msg is RedirectFunds && !address_valid ==> r == Err::<Response, ContractError>(
            ContractError::InvalidAddress,
        ),
{
    match msg {
        ExecuteMsg::InstantiateNewContract {} => instantiate_new_contract(state),
        ExecuteMsg::RedirectFunds { to_address, amount } => redirect_funds(
            to_address,
            address_valid,
            amount,
        ),
    }
}

/// Issues a deployment of the configured code, to be completed by a callback
/// under the deployment identifier. The record is left as it is; a pending
/// factory may issue any number of these.
pub fn instantiate_new_contract(state: &State) -> (r: Result<Response, ContractError>)
    ensures
        is_pending(*state) ==> r is Ok && is_deployment_request(r->Ok_0, state.contract_id),
        !is_pending(*state) ==> r == Err::<Response, ContractError>(ContractError::AlreadyDeployed),
{
    if state.contract_addr.is_some() {
        return Err(ContractError::AlreadyDeployed);
    }
    let mut resp = empty_response();
    let msg = CosmosMsg::Instantiate { code_id: state.contract_id, label: "contract b".to_owned() };
    resp.messages.push(SubMsg { id: INSTANTIATE_REPLY_ID, msg, reply_on: ReplyOn::Success });
    proof {
        reveal_strlit("contract b");
    }
    Ok(resp)
}

/// Issues a transfer of `amount` ujuno to `to_address`, to be acknowledged by a
/// callback under the transfer identifier. `address_valid` is the address
/// validator's verdict on `to_address`.
pub fn redirect_funds(to_address: String, address_valid: bool, amount: u128) -> (r: Result<
    Response,
    ContractError,
>)
    ensures
        address_valid ==> r is Ok && is_redirect(r->Ok_0, to_address@, amount),
        !address_valid ==> r == Err::<Response, ContractError>(ContractError::InvalidAddress),
{
    if !address_valid {
        return Err(ContractError::InvalidAddress);
    }
    let mut coins: Vec<Coin> = Vec::new();
    coins.push(Coin { denom: "ujuno".to_owned(), amount });
    let msg = CosmosMsg::BankSend { to_address: to_address.clone(), amount: coins };
    let mut resp = empty_response();
    resp.messages.push(SubMsg { id: REDIRECT_FUNDS_ID, msg, reply_on: ReplyOn::Success });
    resp.attributes.push(attribute("action", "redirect_funds".to_owned()));
    resp.attributes.push(attribute("to_address", to_address));
    resp.attributes.push(attribute("amount", decimal_string(amount)));
    proof {
        reveal_strlit("ujuno");
        reveal_strlit("action");
        reveal_strlit("redirect_funds");
        reveal_strlit("to_address");
        reveal_strlit("amount");
    }
    Ok(resp)
}

/// Looks a callback identifier up in the closed set.
pub fn correlation(id: u64) -> (r: Option<Correlation>)
    ensures
        r == correlation_of(id),
{
    if id == INSTANTIATE_REPLY_ID {
        Some(Correlation::Deployment)
    } else if id == REDIRECT_FUNDS_ID {
        Some(Correlation::Transfer)
    } else {
        None
    }
}

/// Reads a callback's result by the shape its identifier calls for.
pub fn parse_reply(id: u64, result: &SubMsgResult) -> (r: ReplyOutcome)
    ensures
        reads_as(id, *result, r),
{
    match correlation(id) {
        Some(Correlation::Deployment) => match parse_reply_instantiate_data(result) {
            Some(contract_address) => ReplyOutcome::Instantiated { contract_address },
            None => ReplyOutcome::Unparsable,
        },
        Some(Correlation::Transfer) => if parse_reply_execute_data(result) {
            ReplyOutcome::Executed
        } else {
            ReplyOutcome::Unparsable
        },
        None => ReplyOutcome::Unparsable,
    }
}

/// Routes a callback to the completion handler of its identifier.
/// `address_valid` is the address validator's verdict on the address that a
/// deployment result names.
pub fn reply(state: State, id: u64, outcome: ReplyOutcome, address_valid: bool) -> (r: Result<
    State,
    ContractError,
>)
    ensures
        r == reply_result(state, id, outcome, address_valid),
{
    match correlation(id) {
        Some(Correlation::Deployment) => handle_instantiate_reply(state, outcome, address_valid),
        Some(Correlation::Transfer) => handle_redirect_funds_reply(state, outcome),
        None => Err(ContractError::UnknownReplyId { id }),
    }
}

/// Completes a deployment: binds the new actor's address, once.
pub fn handle_instantiate_reply(
    state: State,
    outcome: ReplyOutcome,
    address_valid: bool,
) -> (r: Result<State, ContractError>)
    ensures
        r == deployment_result(state, outcome, address_valid),
{
    match outcome {
        ReplyOutcome::Instantiated { contract_address } => {
            if !address_valid {
                Err(ContractError::InvalidAddress)
            } else if state.contract_addr.is_some() {
                Err(ContractError::AlreadyDeployed)
            } else {
                Ok(
                    State {
                        admin: state.admin,
                        contract_id: state.contract_id,
                        contract_addr: Some(contract_address),
                    },
                )
            }
        },
        _ => Err(ContractError::ParseFailure),
    }
}

/// Acknowledges a transfer: checks the payload's shape and changes nothing.
pub fn handle_redirect_funds_reply(state: State, outcome: ReplyOutcome) -> (r: Result<
    State,
    ContractError,
>)
    ensures
        r == transfer_result(state, outcome),
{
    match outcome {
        ReplyOutcome::Executed => Ok(state),
        _ => Err(ContractError::ParseFailure),
    }
}

pub open spec fn admin_of(s: State) -> String {
    s.admin
}

/// The stored admin.
pub fn get_admin(state: &State) -> (r: GetAdminResponse)
    ensures
        r.admin == admin_of(*state),
{
    GetAdminResponse { admin: state.admin.clone() }
}

/// Answers a query against the record.
pub fn query(state: &State, msg: QueryMsg) -> (r: GetAdminResponse)
    ensures
        r.admin == admin_of(*state),
{
    match msg {
        QueryMsg::GetAdmin {} => get_admin(state),
    }
}

} // verus!

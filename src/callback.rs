//! Reading the results that the host delivers with a callback.
use vstd::prelude::*;

verus! {

/// The host's result of a sub-message, as plain values: the bytes the
/// sub-message returned, if any, or the reason it failed.
#[derive(Debug, Clone)]
pub enum SubMsgResult {
    Returned { data: Option<Vec<u8>> },
    Failed { reason: String },
}

/// The contract address that a protobuf `MsgInstantiateContractResponse`
/// encoded in `data` carries, or `None` where `data` does not decode.
pub uninterp spec fn instantiate_response_address(data: Seq<u8>) -> Option<Seq<char>>;

/// Whether `data` decodes as a protobuf `MsgExecuteContractResponse`.
pub uninterp spec fn execute_response_decodes(data: Seq<u8>) -> bool;

pub open spec fn chars_of(s: Option<String>) -> Option<Seq<char>> {
    match s {
        Some(x) => Some(x@),
        None => None,
    }
}

/// Relies on `cw_utils::parse_instantiate_response_data`: decodes the reply
/// data of an instantiation; a function of the bytes alone, and never panics.
#[verifier::external_body]
fn decode_instantiate_response(data: &Vec<u8>) -> (r: Option<String>)
    ensures
        chars_of(r) == instantiate_response_address(data@),
{
    cw_utils::parse_instantiate_response_data(data.as_slice()).ok().map(|res| res.contract_address)
}

/// Relies on `cw_utils::parse_execute_response_data`: decodes the reply data
/// of an execution; a function of the bytes alone, and never panics.
#[verifier::external_body]
fn decode_execute_response(data: &Vec<u8>) -> (r: bool)
    ensures
        r == execute_response_decodes(data@),
{
    cw_utils::parse_execute_response_data(data.as_slice()).is_ok()
}

/// The data a successful sub-message returned; `None` for a failure or for no data.
pub open spec fn returned_data(result: SubMsgResult) -> Option<Vec<u8>> {
    match result {
        SubMsgResult::Returned { data } => data,
        SubMsgResult::Failed { .. } => None,
    }
}

/// The address a deployment's result carries, where it carries one.
pub open spec fn deployed_address(result: SubMsgResult) -> Option<Seq<char>> {
    match returned_data(result) {
        Some(d) => instantiate_response_address(d@),
        None => None,
    }
}

/// Whether a transfer's result acknowledges it.
pub open spec fn acknowledges(result: SubMsgResult) -> bool {
    match returned_data(result) {
        Some(d) => execute_response_decodes(d@),
        None => false,
    }
}

/// Reads the new actor's address out of a deployment's result: `None` where the
/// sub-message failed, returned no data, or returned data that does not decode.
pub fn parse_reply_instantiate_data(result: &SubMsgResult) -> (r: Option<String>)
    ensures
        chars_of(r) == deployed_address(*result),
{
    match result {
        SubMsgResult::Returned { data: Some(d) } => decode_instantiate_response(d),
        _ => None,
    }
}

/// Whether a transfer's result acknowledges it: the sub-message succeeded and
/// returned data that decodes.
pub fn parse_reply_execute_data(result: &SubMsgResult) -> (r: bool)
    ensures
        r == acknowledges(*result),
{
    match result {
        SubMsgResult::Returned { data: Some(d) } => decode_execute_response(d),
        _ => false,
    }
}

} // verus!

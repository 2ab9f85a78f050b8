//! The custodian: holds funds and releases all of them to an authorized destination.
use vstd::prelude::*;

use crate::auth::authorize;
use crate::error::ContractError;
use crate::response::{
    attribute, attribute_is, coins_string, coins_text, empty_response, Coin, CosmosMsg, ReplyOn,
    Response, SubMsg,
};

verus! {

#[derive(Debug, Clone, PartialEq, Eq, Structural)]
pub struct InstantiateMsg {}

#[derive(Debug, Clone)]
pub enum ExecuteMsg {
    Withdraw { to_address: Option<String> },
}

#[derive(Debug, Clone)]
pub enum QueryMsg {
    GetAdmin {},
    GetContractFunds { contract_addr: String },
}

#[derive(Debug, Clone)]
pub struct GetAdminResponse {
    pub admin: String,
}

#[derive(Debug, Clone)]
pub struct GetContractFundsResponse {
    pub funds: Vec<Coin>,
}

/// The custodian's stored record, set at instantiation and never changed.
#[derive(Debug, Clone)]
pub struct Config {
    pub admin: String,
}

/// Where a withdrawal goes, or why it is refused: funds are checked first,
/// then the caller, then the requested destination.
pub open spec fn withdraw_decision(
    admin: Seq<char>,
    sender: Seq<char>,
    n_funds: nat,
    to_address: Option<String>,
    address_valid: bool,
) -> Result<Seq<char>, ContractError> {
    if n_funds == 0 {
        Err(ContractError::NoFundsFound)
    } else if sender != admin {
        Err(ContractError::Unauthorized)
    } else {
        match to_address {
            Some(to) => if address_valid {
                Ok(to@)
            } else {
                Err(ContractError::InvalidAddress)
            },
            None => Ok(admin),
        }
    }
}

/// `resp` issues one transfer of exactly `funds` to `recipient`, with no
/// callback, and reports the recipient and the amounts.
pub open spec fn sends_all(resp: Response, recipient: Seq<char>, funds: Vec<Coin>) -> bool {
    &&& resp.messages@.len() == 1
    &&& resp.messages@[0].reply_on == ReplyOn::Never
    &&& match resp.messages@[0].msg {
        CosmosMsg::BankSend { to_address, amount } => to_address@ == recipient && amount == funds,
        _ => false,
    }
    &&& resp.attributes@.len() == 3
    &&& attribute_is(resp.attributes@[0], "action"@, "withdraw_funds"@)
    &&& attribute_is(resp.attributes@[1], "recipient"@, recipient)
    &&& attribute_is(resp.attributes@[2], "amount"@, coins_text(funds@))
}

/// Creates the custodian's record with the sender as admin.
pub fn instantiate(sender: String, msg: InstantiateMsg) -> (r: Config)
    ensures
        r.admin == sender,
{
    Config { admin: sender }
}

/// Releases all of `funds`, the custodian's balance as the ledger reports it,
/// to `to_address` or, when none is given, to the admin. `address_valid` is the
/// address validator's verdict on `to_address` and is read only when one is given.
pub fn withdraw(
    config: &Config,
    sender: &String,
    funds: Vec<Coin>,
    to_address: Option<String>,
    address_valid: bool,
) -> (r: Result<Response, ContractError>)
    ensures
        match withdraw_decision(config.admin@, sender@, funds@.len(), to_address, address_valid) {
            Ok(recipient) => r is Ok && sends_all(r->Ok_0, recipient, funds),
            Err(e) => r == Err::<Response, ContractError>(e),
        },
{
    if funds.len() == 0 {
        return Err(ContractError::NoFundsFound);
    }
    match authorize(sender, &config.admin) {
        Err(e) => {
            return Err(e);
        },
        Ok(()) => {},
    }
    let recipient = match to_address {
        Some(value) => {
            if !address_valid {
                return Err(ContractError::InvalidAddress);
            }
            value
        },
        None => config.admin.clone(),
    };
    let amounts = coins_string(&funds);
    let mut resp = empty_response();
    let msg = CosmosMsg::BankSend { to_address: recipient.clone(), amount: funds };
    resp.messages.push(SubMsg { id: 0, msg, reply_on: ReplyOn::Never });
    resp.attributes.push(attribute("action", "withdraw_funds".to_owned()));
    resp.attributes.push(attribute("recipient", recipient));
    resp.attributes.push(attribute("amount", amounts));
    proof {
        reveal_strlit("action");
        reveal_strlit("withdraw_funds");
        reveal_strlit("recipient");
        reveal_strlit("amount");
    }
    Ok(resp)
}

/// Runs an inbound request; see `withdraw`.
pub fn execute(
    config: &Config,
    sender: &String,
    funds: Vec<Coin>,
    msg: ExecuteMsg,
    address_valid: bool,
) -> (r: Result<Response, ContractError>)
    ensures
        match withdraw_decision(config.admin@, sender@, funds@.len(), msg->to_address, address_valid) {
            Ok(recipient) => r is Ok && sends_all(r->Ok_0, recipient, funds),
            Err(e) => r == Err::<Response, ContractError>(e),
        },
{
    match msg {
        ExecuteMsg::Withdraw { to_address } => withdraw(config, sender, funds, to_address, address_valid),
    }
}

/// Acknowledges a transfer; the record stays as it is.
pub fn redirect_funds(config: Config) -> (r: (Config, Response))
    ensures
        r.0 == config,
        r.1.messages@.len() == 0,
        r.1.attributes@.len() == 1,
        attribute_is(r.1.attributes@[0], "action"@, "redirect_funds"@),
{
    let mut resp = empty_response();
    resp.attributes.push(attribute("action", "redirect_funds".to_owned()));
    proof {
        reveal_strlit("action");
        reveal_strlit("redirect_funds");
    }
    (config, resp)
}

/// The stored admin.
pub fn get_admin(config: &Config) -> (r: GetAdminResponse)
    ensures
        r.admin == config.admin,
{
    GetAdminResponse { admin: config.admin.clone() }
}

/// Reports `funds`, an account's balance as the ledger gave it.
pub fn get_contract_funds(funds: Vec<Coin>) -> (r: GetContractFundsResponse)
    ensures
        r.funds == funds,
{
    GetContractFundsResponse { funds }
}

} // verus!

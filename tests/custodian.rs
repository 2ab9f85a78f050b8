use cw_relay::custodian::{
    execute, get_admin, get_contract_funds, instantiate, redirect_funds, withdraw, Config,
    ExecuteMsg, InstantiateMsg,
};
use cw_relay::error::ContractError;
use cw_relay::response::{Coin, CosmosMsg, ReplyOn, Response};

const USER: &str = "user";
const ADMIN: &str = "admin";
const CONTRACT: &str = "contract0";

/// Balances per account, as a host ledger keeps them.
struct Ledger {
    accounts: Vec<(String, Vec<Coin>)>,
}

impl Ledger {
    fn new() -> Ledger {
        Ledger { accounts: Vec::new() }
    }

    fn balance(&self, who: &str) -> Vec<(String, u128)> {
        let mut out = Vec::new();
        for (acct, coins) in &self.accounts {
            if acct == who {
                for c in coins {
                    if c.amount > 0 {
                        out.push((c.denom.clone(), c.amount));
                    }
                }
            }
        }
        out
    }

    fn coins_of(&self, who: &str) -> Vec<Coin> {
        self.balance(who)
            .into_iter()
            .map(|(denom, amount)| Coin { denom, amount })
            .collect()
    }

    fn add(&mut self, who: &str, denom: &str, amount: i128) {
        let pos = match self.accounts.iter().position(|(a, _)| a == who) {
            Some(p) => p,
            None => {
                self.accounts.push((who.to_string(), Vec::new()));
                self.accounts.len() - 1
            }
        };
        let coins = &mut self.accounts[pos].1;
        match coins.iter_mut().find(|c| c.denom == denom) {
            Some(c) => c.amount = (c.amount as i128 + amount) as u128,
            None => coins.push(Coin { denom: denom.to_string(), amount: amount as u128 }),
        }
    }

    fn carry_out(&mut self, from: &str, resp: &Response) {
        for sub in &resp.messages {
            if let CosmosMsg::BankSend { to_address, amount } = &sub.msg {
                for c in amount {
                    self.add(from, &c.denom, -(c.amount as i128));
                    self.add(to_address, &c.denom, c.amount as i128);
                }
            }
        }
    }
}

fn funded_custodian(ledger: &mut Ledger) -> Config {
    ledger.add(ADMIN, "uatom", 1_000_000);
    let config = instantiate(ADMIN.to_string(), InstantiateMsg {});
    // the admin sends 1_000_000 uatom along with the instantiation
    ledger.add(ADMIN, "uatom", -1_000_000);
    ledger.add(CONTRACT, "uatom", 1_000_000);
    config
}

#[test]
fn proper_instantiation() {
    let config = instantiate(ADMIN.to_string(), InstantiateMsg {});
    let resp = get_admin(&config);
    assert_eq!(resp.admin, ADMIN.to_string());
}

#[test]
fn withdraw_funds() {
    let mut ledger = Ledger::new();
    let config = funded_custodian(&mut ledger);
    let funds = ledger.coins_of(CONTRACT);
    let resp = withdraw(&config, &ADMIN.to_string(), funds, None, false).unwrap();
    ledger.carry_out(CONTRACT, &resp);
    assert_eq!(ledger.balance(CONTRACT), vec![]);
    assert_eq!(ledger.balance(ADMIN), vec![("uatom".to_string(), 1_000_000)]);
}

#[test]
fn withdraw_funds_to_user_address() {
    let mut ledger = Ledger::new();
    let config = funded_custodian(&mut ledger);
    let funds = ledger.coins_of(CONTRACT);
    let resp = withdraw(&config, &ADMIN.to_string(), funds, Some(USER.to_string()), true).unwrap();
    ledger.carry_out(CONTRACT, &resp);
    assert_eq!(ledger.balance(CONTRACT), vec![]);
    assert_eq!(ledger.balance(ADMIN), vec![]);
    assert_eq!(ledger.balance(USER), vec![("uatom".to_string(), 1_000_000)]);
}

#[test]
fn withdraw_reports_recipient_and_sends_everything() {
    let config = instantiate(ADMIN.to_string(), InstantiateMsg {});
    let funds = vec![
        Coin { denom: "uatom".to_string(), amount: 7 },
        Coin { denom: "ujuno".to_string(), amount: 9 },
    ];
    let resp = withdraw(&config, &ADMIN.to_string(), funds, Some(USER.to_string()), true).unwrap();
    assert_eq!(resp.messages.len(), 1);
    assert_eq!(resp.messages[0].reply_on, ReplyOn::Never);
    match &resp.messages[0].msg {
        CosmosMsg::BankSend { to_address, amount } => {
            assert_eq!(to_address, USER);
            assert_eq!(amount.len(), 2);
            assert_eq!(amount[0].denom, "uatom");
            assert_eq!(amount[0].amount, 7);
            assert_eq!(amount[1].denom, "ujuno");
            assert_eq!(amount[1].amount, 9);
        }
        other => panic!("unexpected message {:?}", other),
    }
    assert_eq!(resp.attributes.len(), 3);
    assert_eq!(resp.attributes[0].key, "action");
    assert_eq!(resp.attributes[0].value, "withdraw_funds");
    assert_eq!(resp.attributes[1].key, "recipient");
    assert_eq!(resp.attributes[1].value, USER);
    assert_eq!(resp.attributes[2].key, "amount");
    assert_eq!(resp.attributes[2].value, "7uatom,9ujuno");
}

#[test]
fn withdraw_reports_single_amount() {
    let config = instantiate(ADMIN.to_string(), InstantiateMsg {});
    let funds = vec![Coin { denom: "uatom".to_string(), amount: 1_000_000 }];
    let resp = withdraw(&config, &ADMIN.to_string(), funds, None, false).unwrap();
    assert_eq!(resp.attributes[1].value, ADMIN);
    assert_eq!(resp.attributes[2].key, "amount");
    assert_eq!(resp.attributes[2].value, "1000000uatom");
}

#[test]
fn withdraw_by_non_admin_is_unauthorized() {
    let mut ledger = Ledger::new();
    let config = funded_custodian(&mut ledger);
    let funds = ledger.coins_of(CONTRACT);
    let r = withdraw(&config, &USER.to_string(), funds, Some(USER.to_string()), true);
    assert_eq!(r.unwrap_err(), ContractError::Unauthorized);
    assert_eq!(ledger.balance(CONTRACT), vec![("uatom".to_string(), 1_000_000)]);
    assert_eq!(ledger.balance(ADMIN), vec![]);
    assert_eq!(ledger.balance(USER), vec![]);
}

#[test]
fn withdraw_from_empty_balance_finds_no_funds() {
    let config = instantiate(ADMIN.to_string(), InstantiateMsg {});
    let r = withdraw(&config, &ADMIN.to_string(), Vec::new(), None, false);
    assert_eq!(r.unwrap_err(), ContractError::NoFundsFound);
    // funds are checked before the caller
    let r = withdraw(&config, &USER.to_string(), Vec::new(), None, false);
    assert_eq!(r.unwrap_err(), ContractError::NoFundsFound);
}

#[test]
fn withdraw_to_rejected_address_is_invalid() {
    let config = instantiate(ADMIN.to_string(), InstantiateMsg {});
    let funds = vec![Coin { denom: "uatom".to_string(), amount: 1 }];
    let r = withdraw(&config, &ADMIN.to_string(), funds, Some("Not An Address".to_string()), false);
    assert_eq!(r.unwrap_err(), ContractError::InvalidAddress);
}

#[test]
fn custodian_redirect_keeps_config() {
    let config = instantiate(ADMIN.to_string(), InstantiateMsg {});
    let (after, resp) = redirect_funds(config);
    assert_eq!(after.admin, ADMIN);
    assert!(resp.messages.is_empty());
    assert_eq!(resp.attributes[0].key, "action");
    assert_eq!(resp.attributes[0].value, "redirect_funds");
}

#[test]
fn contract_funds_are_reported_as_given() {
    let funds = vec![Coin { denom: "uatom".to_string(), amount: 1_000_000 }];
    let resp = get_contract_funds(funds);
    assert_eq!(resp.funds.len(), 1);
    assert_eq!(resp.funds[0].denom, "uatom");
    assert_eq!(resp.funds[0].amount, 1_000_000);
}

#[test]
fn execute_runs_withdrawal() {
    let config = instantiate(ADMIN.to_string(), InstantiateMsg {});
    let funds = vec![Coin { denom: "uatom".to_string(), amount: 3 }];
    let msg = ExecuteMsg::Withdraw { to_address: None };
    let resp = execute(&config, &ADMIN.to_string(), funds, msg, false).unwrap();
    assert_eq!(resp.attributes[1].value, ADMIN);
    let msg = ExecuteMsg::Withdraw { to_address: None };
    let r = execute(&config, &USER.to_string(), Vec::new(), msg, false);
    assert_eq!(r.unwrap_err(), ContractError::NoFundsFound);
}

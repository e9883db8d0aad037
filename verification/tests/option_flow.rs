//! Edge cases: missing record, creation rejection, dispatching, value-based
//! funds comparison, and the full lifecycle scenario.

use simple_option::contract::{
    handle, handle_burn, handle_execute, handle_transfer, init, query, query_config, BankMsg,
    ContractError, Env, HandleMsg, InitMsg, MessageInfo, QueryMsg,
};
use simple_option::funds::Coin;
use simple_option::state::State;

fn coin(amount: u128, denom: &str) -> Coin {
    Coin { denom: denom.to_string(), amount }
}

fn env_at(height: u64) -> Env {
    Env { block_height: height, contract_address: "contract".to_string() }
}

fn info(sender: &str, sent_funds: Vec<Coin>) -> MessageInfo {
    MessageInfo { sender: sender.to_string(), sent_funds }
}

#[test]
fn create_not_in_future_is_rejected() {
    let mut record: Option<State> = None;

    // expires == now
    let msg = InitMsg { counter_offer: vec![coin(40, "ETH")], expires: 100 };
    let err = init(&mut record, env_at(100), info("creator", vec![coin(1, "BTC")]), msg)
        .unwrap_err();
    assert_eq!(err, ContractError::InvalidExpiration);
    assert!(record.is_none());

    // expires < now
    let msg = InitMsg { counter_offer: vec![coin(40, "ETH")], expires: 99 };
    let err = init(&mut record, env_at(100), info("creator", vec![coin(1, "BTC")]), msg)
        .unwrap_err();
    assert_eq!(err, ContractError::InvalidExpiration);
    assert!(record.is_none());
    assert_eq!(query_config(&record).unwrap_err(), ContractError::NotFound);
}

#[test]
fn missing_record_is_not_found() {
    let mut record: Option<State> = None;
    assert_eq!(
        handle_transfer(&mut record, info("anyone", vec![]), "anyone".to_string()).unwrap_err(),
        ContractError::NotFound
    );
    assert_eq!(
        handle_execute(&mut record, info("anyone", vec![]), env_at(1)).unwrap_err(),
        ContractError::NotFound
    );
    assert_eq!(
        handle_burn(&mut record, info("anyone", vec![]), env_at(1)).unwrap_err(),
        ContractError::NotFound
    );
    assert_eq!(query_config(&record).unwrap_err(), ContractError::NotFound);
}

#[test]
fn counter_offer_is_compared_by_value() {
    // two denominations, paid in the opposite order: still an exact payment
    let mut record: Option<State> = None;
    let offer = vec![coin(40, "ETH"), coin(7, "ATOM")];
    let msg = InitMsg { counter_offer: offer, expires: 1_000 };
    init(&mut record, env_at(1), info("creator", vec![coin(1, "BTC")]), msg).unwrap();

    let paid = vec![coin(7, "ATOM"), coin(40, "ETH")];
    let res = handle_execute(&mut record, info("creator", paid), env_at(2)).unwrap();
    assert_eq!(res.messages.len(), 2);
    assert!(record.is_none());
}

#[test]
fn short_extra_or_renamed_payment_mismatches() {
    let offer = vec![coin(40, "ETH"), coin(7, "ATOM")];
    let cases: Vec<Vec<Coin>> = vec![
        vec![],                                            // nothing at all
        vec![coin(40, "ETH")],                             // one denomination short
        vec![coin(40, "ETH"), coin(6, "ATOM")],            // one amount short
        vec![coin(40, "ETH"), coin(7, "BTC")],             // wrong denomination
        vec![coin(40, "ETH"), coin(7, "ATOM"), coin(1, "BTC")], // an extra coin
    ];
    for paid in cases {
        let mut record: Option<State> = None;
        let msg = InitMsg { counter_offer: offer.clone(), expires: 1_000 };
        init(&mut record, env_at(1), info("creator", vec![coin(1, "BTC")]), msg).unwrap();
        let err = handle_execute(&mut record, info("creator", paid), env_at(2)).unwrap_err();
        assert_eq!(err, ContractError::FundsMismatch);
        // the record survives the rejection
        assert_eq!(query_config(&record).unwrap().counter_offer, offer);
    }
}

#[test]
fn burn_is_open_to_any_caller() {
    let mut record: Option<State> = None;
    let msg = InitMsg { counter_offer: vec![coin(40, "ETH")], expires: 1_000 };
    init(&mut record, env_at(1), info("creator", vec![coin(1, "BTC")]), msg).unwrap();

    let res = handle_burn(&mut record, info("stranger", vec![]), env_at(1_000)).unwrap();
    assert_eq!(res.messages.len(), 1);
    assert_eq!(
        res.messages[0],
        BankMsg {
            from_address: "contract".to_string(),
            to_address: "creator".to_string(),
            amount: vec![coin(1, "BTC")],
        }
    );
    assert!(record.is_none());
}

#[test]
fn handle_dispatches_each_message() {
    let mut record: Option<State> = None;
    let msg = InitMsg { counter_offer: vec![coin(40, "ETH")], expires: 1_000 };
    init(&mut record, env_at(1), info("creator", vec![coin(1, "BTC")]), msg).unwrap();

    let transfer = HandleMsg::Transfer { recipient: "friend".to_string() };
    let res = handle(&mut record, info("creator", vec![]), env_at(2), transfer).unwrap();
    assert_eq!(res.messages.len(), 0);
    assert_eq!(query_config(&record).unwrap().owner.as_str(), "friend");

    let burn_early = handle(&mut record, info("friend", vec![]), env_at(2), HandleMsg::Burn {});
    assert_eq!(burn_early.unwrap_err(), ContractError::NotYetExpired);

    let paid = vec![coin(40, "ETH")];
    let res = handle(&mut record, info("friend", paid), env_at(2), HandleMsg::Execute {}).unwrap();
    assert_eq!(res.messages.len(), 2);
    assert!(record.is_none());
}

#[test]
fn query_answers_config() {
    let mut record: Option<State> = None;
    assert_eq!(query(&record, QueryMsg::Config {}).unwrap_err(), ContractError::NotFound);

    let msg = InitMsg { counter_offer: vec![coin(40, "ETH")], expires: 1_000 };
    init(&mut record, env_at(1), info("creator", vec![coin(1, "BTC")]), msg).unwrap();
    let config = query(&record, QueryMsg::Config {}).unwrap();
    assert_eq!(config.creator.as_str(), "creator");
    assert_eq!(config.expires, 1_000);
}

#[test]
fn full_lifecycle_scenario() {
    // create with collateral 1 BTC, counter-offer 40 ETH, expires 100000, now 0
    let mut record: Option<State> = None;
    let msg = InitMsg { counter_offer: vec![coin(40, "ETH")], expires: 100_000 };
    init(&mut record, env_at(0), info("creator", vec![coin(1, "BTC")]), msg).unwrap();
    let config = query_config(&record).unwrap();
    assert_eq!(config.owner, config.creator);

    // transfer to "B" by the creator
    handle_transfer(&mut record, info("creator", vec![]), "B".to_string()).unwrap();
    assert_eq!(query_config(&record).unwrap().owner.as_str(), "B");

    // exercise by "B" just before expiry, paying 40 ETH
    let res = handle_execute(&mut record, info("B", vec![coin(40, "ETH")]), env_at(99_999))
        .unwrap();
    assert_eq!(res.messages.len(), 2);
    assert_eq!(
        res.messages[0],
        BankMsg {
            from_address: "contract".to_string(),
            to_address: "creator".to_string(),
            amount: vec![coin(40, "ETH")],
        }
    );
    assert_eq!(
        res.messages[1],
        BankMsg {
            from_address: "contract".to_string(),
            to_address: "B".to_string(),
            amount: vec![coin(1, "BTC")],
        }
    );
    assert_eq!(query_config(&record).unwrap_err(), ContractError::NotFound);

    // separately: a fresh option reclaimed long after expiry, by anyone
    let mut record: Option<State> = None;
    let msg = InitMsg { counter_offer: vec![coin(40, "ETH")], expires: 100_000 };
    init(&mut record, env_at(0), info("creator", vec![coin(1, "BTC")]), msg).unwrap();
    let res = handle_burn(&mut record, info("anyone", vec![]), env_at(200_000)).unwrap();
    assert_eq!(res.messages.len(), 1);
    assert_eq!(
        res.messages[0],
        BankMsg {
            from_address: "contract".to_string(),
            to_address: "creator".to_string(),
            amount: vec![coin(1, "BTC")],
        }
    );
    assert_eq!(query_config(&record).unwrap_err(), ContractError::NotFound);
}

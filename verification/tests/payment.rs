use osmo::contract::{instantiate, try_deposit, try_donate};
use osmo::error::{ContractError, PaymentError};
use osmo::funds::{coin, message_info, Coin};
use osmo::msg::InstantiateMsg;

fn host_rule(funds: &[Coin], denom: &str) -> Result<u128, cw_utils::PaymentError> {
    let info = cosmwasm_std::MessageInfo {
        sender: cosmwasm_std::Addr::unchecked("payer"),
        funds: funds
            .iter()
            .map(|c| cosmwasm_std::coin(c.amount, c.denom.clone()))
            .collect(),
    };
    cw_utils::must_pay(&info, denom).map(|amount| amount.u128())
}

fn worded(e: PaymentError) -> cw_utils::PaymentError {
    match e {
        PaymentError::MissingDenom(denom) => cw_utils::PaymentError::MissingDenom(denom),
        PaymentError::ExtraDenom(denom) => cw_utils::PaymentError::ExtraDenom(denom),
        PaymentError::MultipleDenoms => cw_utils::PaymentError::MultipleDenoms {},
        PaymentError::NoFunds => cw_utils::PaymentError::NoFunds {},
        PaymentError::NonPayable => cw_utils::PaymentError::NonPayable {},
    }
}

fn payments() -> Vec<Vec<Coin>> {
    vec![
        vec![],
        vec![coin(0, "eth")],
        vec![coin(0, "wei")],
        vec![coin(1, "eth")],
        vec![coin(100, "eth")],
        vec![coin(u128::MAX, "eth")],
        vec![coin(100, "wei")],
        vec![coin(100, "")],
        vec![coin(100, "ETH")],
        vec![coin(100, "eth ")],
        vec![coin(100, "et")],
        vec![coin(50, "eth"), coin(120, "wei")],
        vec![coin(50, "wei"), coin(120, "eth")],
        vec![coin(50, "eth"), coin(120, "eth")],
        vec![coin(0, "eth"), coin(0, "eth")],
        vec![coin(1, "a"), coin(2, "b"), coin(3, "eth")],
    ]
}

#[test]
fn donate_takes_what_the_payment_rule_takes() {
    let setup = InstantiateMsg {
        count: 0,
        donation_denom: "eth".to_string(),
    };
    let (ledger, _) = instantiate(message_info("owner", vec![]), setup).unwrap();
    for funds in payments() {
        let expected = host_rule(&funds, "eth");
        let got = try_donate(&ledger, message_info("payer", funds.clone()));
        match (got, expected) {
            (Ok(response), Ok(amount)) => {
                assert_eq!(response.attributes[1].key, "amount");
                assert_eq!(response.attributes[1].value, amount.to_string());
            }
            (Err(ContractError::Payment(e)), Err(expected)) => assert_eq!(worded(e), expected),
            (got, expected) => panic!("{:?}: {:?} but {:?}", funds, got, expected),
        }
    }
}

#[test]
fn deposit_takes_what_the_payment_rule_takes() {
    for funds in payments() {
        let setup = InstantiateMsg {
            count: 0,
            donation_denom: "eth".to_string(),
        };
        let (mut ledger, _) = instantiate(message_info("owner", vec![]), setup).unwrap();
        let expected = host_rule(&funds, "eth");
        let got = try_deposit(&mut ledger, message_info("payer", funds.clone()));
        let saved = ledger.deposits.may_load(&"payer".to_string());
        match (got, expected) {
            (Ok(_), Ok(amount)) => assert_eq!(saved, Some(amount)),
            (Err(ContractError::Payment(e)), Err(expected)) => {
                assert_eq!(worded(e), expected);
                assert_eq!(saved, None);
            }
            (got, expected) => panic!("{:?}: {:?} but {:?}", funds, got, expected),
        }
    }
}

#[test]
fn payment_errors_by_kind() {
    let setup = InstantiateMsg {
        count: 0,
        donation_denom: "uatom".to_string(),
    };
    let (ledger, _) = instantiate(message_info("owner", vec![]), setup).unwrap();
    let pay = |funds: Vec<Coin>| try_donate(&ledger, message_info("sender", funds));

    assert!(pay(vec![coin(100, "uatom")]).is_ok());
    assert_eq!(
        pay(vec![]),
        Err(ContractError::Payment(PaymentError::NoFunds))
    );
    assert_eq!(
        pay(vec![coin(0, "uatom")]),
        Err(ContractError::Payment(PaymentError::NoFunds))
    );
    assert_eq!(
        pay(vec![coin(100, "wei")]),
        Err(ContractError::Payment(PaymentError::MissingDenom(
            "uatom".to_string()
        )))
    );
    assert_eq!(
        pay(vec![coin(50, "uatom"), coin(120, "wei")]),
        Err(ContractError::Payment(PaymentError::MultipleDenoms))
    );
}

#[test]
fn the_denomination_asked_for_decides() {
    for denom in ["eth", "wei", "", "uatom"] {
        let setup = InstantiateMsg {
            count: 0,
            donation_denom: denom.to_string(),
        };
        let (ledger, _) = instantiate(message_info("owner", vec![]), setup).unwrap();
        for funds in payments() {
            let expected = host_rule(&funds, denom);
            let got = try_donate(&ledger, message_info("payer", funds));
            match (got, expected) {
                (Ok(_), Ok(_)) => {}
                (Err(ContractError::Payment(e)), Err(expected)) => assert_eq!(worded(e), expected),
                (got, expected) => panic!("{:?} but {:?}", got, expected),
            }
        }
    }
}

use osmo::contract::{execute, instantiate, query};
use osmo::error::{ContractError, PaymentError};
use osmo::funds::{coin, coins, message_info, Coin};
use osmo::msg::{ExecuteMsg, InstantiateMsg, QueryMsg, QueryResponse};
use osmo::response::Response;
use osmo::state::Ledger;

/// What the host's bank holds for each party, as far as a test follows it.
/// The host moves the attached coins to the ledger's custody before it
/// hands a request over, and takes the move back if the request is refused.
struct Bank {
    user: Vec<Coin>,
    custody: Vec<Coin>,
}

fn holding(coins: &[Coin], denom: &str) -> u128 {
    coins.iter().filter(|c| c.denom == denom).map(|c| c.amount).sum()
}

fn execute_contract(
    bank: &mut Bank,
    ledger: &mut Ledger,
    sender: &str,
    msg: ExecuteMsg,
    funds: Vec<Coin>,
) -> Result<Response, ContractError> {
    let res = execute(ledger, message_info(sender, funds.clone()), msg)?;
    for sent in funds {
        let from = bank.user.iter_mut().find(|c| c.denom == sent.denom).unwrap();
        from.amount -= sent.amount;
        match bank.custody.iter_mut().find(|c| c.denom == sent.denom) {
            Some(to) => to.amount += sent.amount,
            None => bank.custody.push(sent),
        }
    }
    Ok(res)
}

fn count_of(ledger: &Ledger) -> i32 {
    match query(ledger, QueryMsg::GetCount {}).unwrap() {
        QueryResponse::Count(value) => value.count,
        other => panic!("not a count: {:?}", other),
    }
}

fn savings_of(ledger: &Ledger, depositor: &str) -> u128 {
    let msg = QueryMsg::GetSavingsBalance {
        depositor: depositor.to_string(),
    };
    match query(ledger, msg).unwrap() {
        QueryResponse::SavingsBalance(value) => value.savings_balance,
        other => panic!("not a balance: {:?}", other),
    }
}

#[test]
fn proper_initialization() {
    // the host holds this for the ledger; the ledger never looks at it
    let _custody = coins(2, "token");

    let msg = InstantiateMsg {
        count: 17,
        donation_denom: "usd".to_string(),
    };
    let info = message_info("creator", coins(1000, "earth"));

    // we can just call .unwrap() to assert this was a success
    let (ledger, res) = instantiate(info, msg).unwrap();
    assert_eq!(0, res.messages.len());

    // it worked, let's query the state
    let res = query(&ledger, QueryMsg::GetCount {}).unwrap();
    match res {
        QueryResponse::Count(value) => assert_eq!(17, value.count),
        other => panic!("not a count: {:?}", other),
    }
}

#[test]
fn deposit() {
    let _custody = coins(2, "fauxcoin");

    let msg = InstantiateMsg {
        count: 17,
        donation_denom: "fauxcoin".to_string(),
    };
    let info = message_info("creator", coins(2, "fauxcoin"));
    let (mut ledger, _res) = instantiate(info, msg).unwrap();

    // anyone can deposit
    let info = message_info("anyone", coins(7, "fauxcoin"));
    let msg = ExecuteMsg::Deposit {};
    let _res = execute(&mut ledger, info, msg).unwrap();

    // should balance by amount
    let res = query(
        &ledger,
        QueryMsg::GetSavingsBalance {
            depositor: "anyone".to_string(),
        },
    )
    .unwrap();
    match res {
        QueryResponse::SavingsBalance(value) => assert_eq!(7, value.savings_balance),
        other => panic!("not a balance: {:?}", other),
    }

    let second_info = message_info("anyone", coins(4, "fauxcoin"));
    let second_msg = ExecuteMsg::Deposit {};
    let _second_res: Response = execute(&mut ledger, second_info, second_msg).unwrap();

    // should balance by amount
    let second_res = query(
        &ledger,
        QueryMsg::GetSavingsBalance {
            depositor: "anyone".to_string(),
        },
    )
    .unwrap();
    match second_res {
        QueryResponse::SavingsBalance(value) => assert_eq!(11, value.savings_balance),
        other => panic!("not a balance: {:?}", other),
    }
}

#[test]
fn withdraw() {
    let _custody = coins(6, "fauxcoin");

    let msg = InstantiateMsg {
        count: 17,
        donation_denom: "fauxcoin".to_string(),
    };
    let info = message_info("creator", coins(2, "fauxcoin"));
    let (mut ledger, _res) = instantiate(info, msg).unwrap();

    // anyone can deposit
    let info = message_info("anyone", coins(7, "fauxcoin"));
    let msg = ExecuteMsg::Deposit {};
    let _res = execute(&mut ledger, info, msg).unwrap();

    // should balance by amount
    assert_eq!(7, savings_of(&ledger, "anyone"));

    let second_info = message_info("anyone", vec![]);
    let second_msg = ExecuteMsg::Withdraw { withdraw_amount: 3 };
    let _second_res: Response = execute(&mut ledger, second_info, second_msg).unwrap();

    // should balance by amount
    assert_eq!(4, savings_of(&ledger, "anyone"));
}

#[test]
fn increment() {
    let _custody = coins(2, "token");

    let msg = InstantiateMsg {
        count: 17,
        donation_denom: "fakeusd".to_string(),
    };
    let info = message_info("creator", coins(2, "token"));
    let (mut ledger, _res) = instantiate(info, msg).unwrap();

    // anyone can increment
    let info = message_info("anyone", coins(2, "token"));
    let msg = ExecuteMsg::Increment {};
    let _res = execute(&mut ledger, info, msg).unwrap();

    // should increase counter by 1
    assert_eq!(18, count_of(&ledger));
}

#[test]
fn reset() {
    let _custody = coins(2, "token");

    let msg = InstantiateMsg {
        count: 17,
        donation_denom: "fakeusd".to_string(),
    };
    let info = message_info("creator", coins(2, "token"));
    let (mut ledger, _res) = instantiate(info, msg).unwrap();

    // nobody but the creator may reset
    let unauth_info = message_info("anyone", coins(2, "token"));
    let msg = ExecuteMsg::Reset { count: 5 };
    let res = execute(&mut ledger, unauth_info, msg);
    match res {
        Err(ContractError::Unauthorized {}) => {}
        _ => panic!("Must return unauthorized error"),
    }

    // only the creator can reset the counter
    let auth_info = message_info("creator", coins(2, "token"));
    let msg = ExecuteMsg::Reset { count: 5 };
    let _res = execute(&mut ledger, auth_info, msg).unwrap();

    // should now be 5
    assert_eq!(5, count_of(&ledger));
}

#[test]
#[should_panic(expected = "Must send reserve token")]
fn donate_wrong_denom() {
    let init_funds = vec![coin(5, "fauxcoin"), coin(5, "eth")];
    let mut bank = Bank {
        user: init_funds,
        custody: vec![],
    };
    let (mut ledger, _res) = instantiate(
        message_info("owner", vec![]),
        InstantiateMsg {
            donation_denom: "eth".to_string(),
            count: 100,
        },
    )
    .unwrap();
    let refused = execute_contract(
        &mut bank,
        &mut ledger,
        "user",
        ExecuteMsg::Donate {},
        coins(5, "fauxcoin"),
    );
    // the host words a refused payment as the payment rule's own crate does
    match refused {
        Err(ContractError::Payment(PaymentError::MissingDenom(denom))) => {
            panic!("{}", cw_utils::PaymentError::MissingDenom(denom));
        }
        other => assert!(other.is_err(), "a donation in fauxcoin went through"),
    }
}

#[test]
fn donations() {
    let init_funds = vec![coin(5, "fauxcoin"), coin(5, "eth")];
    let mut bank = Bank {
        user: init_funds,
        custody: vec![],
    };
    let (mut ledger, _res) = instantiate(
        message_info("owner", vec![]),
        InstantiateMsg {
            donation_denom: "eth".to_string(),
            count: 100,
        },
    )
    .unwrap();
    execute_contract(
        &mut bank,
        &mut ledger,
        "user",
        ExecuteMsg::Donate {},
        coins(5, "eth"),
    )
    .unwrap();

    //user has 0
    assert_eq!(holding(&bank.user, "eth"), 0);

    //contract has 5
    assert_eq!(holding(&bank.custody, "eth"), 5);

    // a donation in another denomination is refused, and nothing moves
    let refused = execute_contract(
        &mut bank,
        &mut ledger,
        "user",
        ExecuteMsg::Donate {},
        coins(5, "fauxcoin"),
    );
    assert_eq!(
        refused,
        Err(ContractError::Payment(PaymentError::MissingDenom(
            "eth".to_string()
        )))
    );
    assert_eq!(holding(&bank.user, "fauxcoin"), 5);
    assert_eq!(holding(&bank.custody, "fauxcoin"), 0);
}

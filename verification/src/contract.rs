//! The operations of the ledger.

use vstd::prelude::*;
use vstd::string::StringExecFns;

use crate::decimal::{i32_to_decimal, u128_to_decimal};
use crate::error::{ContractError, ContractErrorView, PaymentError, PaymentErrorView};
use crate::funds::{coins, MessageInfo};
use crate::model::{
    answers, deposit_fits, deposit_step, donate_step, execute_step, increment_step,
    initial_ledger, initial_response, reset_step, result_view, savings_answer, within_limits,
    withdraw_step,
};
use crate::msg::{
    CountResponse, ExecuteMsg, InstantiateMsg, QueryMsg, QueryResponse, SavingsBalanceResponse,
};
use crate::payment::{must_pay, payment_of};
use crate::response::{BankMsg, Response};
use crate::state::{Deposits, Ledger, State};

verus! {

/// Sets up a ledger that the sender of `info` owns.
///
/// The counter starts at `msg.count`, all payments are to be made in
/// `msg.donation_denom`, and nobody has a balance entry. Coins attached to
/// the request play no part. Setting up never fails.
pub fn instantiate(info: MessageInfo, msg: InstantiateMsg) -> (r: Result<
    (Ledger, Response),
    ContractError,
>)
    ensures
        r matches Ok((ledger, response)) && ledger@ == initial_ledger(
            info@.sender,
            msg.count as int,
            msg.donation_denom@,
        ) && response@ == initial_response(info@.sender, msg.count as int, msg.donation_denom@),
{
    let response = Response::new().add_attribute("method", String::from_str("instantiate"))
        .add_attribute("owner", info.sender.clone()).add_attribute(
        "count",
        i32_to_decimal(msg.count),
    ).add_attribute("denom", msg.donation_denom.clone());
    let ledger = Ledger {
        state: State { count: msg.count, owner: info.sender },
        donation_denom: msg.donation_denom,
        deposits: Deposits::new(),
    };
    proof {
        let expected = initial_response(info@.sender, msg.count as int, msg.donation_denom@);
        assert(response@.attributes =~= expected.attributes);
    }
    Ok((ledger, response))
}

/// Carries out the operation that `msg` asks for, on behalf of the sender
/// of `info`.
///
/// The counter must be below its largest value for an increment, and a
/// deposit must leave the sender's balance within 128 bits: see
/// [`check_limits`].
pub fn execute(ledger: &mut Ledger, info: MessageInfo, msg: ExecuteMsg) -> (r: Result<
    Response,
    ContractError,
>)
    requires
        within_limits(old(ledger)@, info@, msg),
    ensures
        final(ledger)@ == execute_step(old(ledger)@, info@, msg).ledger,
        result_view(r) == execute_step(old(ledger)@, info@, msg).result,
{
    match msg {
        ExecuteMsg::Increment {  } => try_increment(ledger),
        ExecuteMsg::Reset { count } => try_reset(ledger, info, count),
        ExecuteMsg::Donate {  } => try_donate(ledger, info),
        ExecuteMsg::Deposit {  } => try_deposit(ledger, info),
        ExecuteMsg::Withdraw { withdraw_amount } => try_withdraw(ledger, info, withdraw_amount),
    }
}

/// Tells whether [`execute`] can be asked for `msg`: whether the counter,
/// for an increment, or the sender's balance, for a deposit, would stay
/// within what the machine can hold.
pub fn check_limits(ledger: &Ledger, info: &MessageInfo, msg: &ExecuteMsg) -> (ok: bool)
    ensures
        ok == within_limits(ledger@, info@, *msg),
{
    match msg {
        ExecuteMsg::Increment {  } => ledger.state.count < i32::MAX,
        ExecuteMsg::Deposit {  } => match must_pay(info, ledger.donation_denom.as_str()) {
            Ok(amount) => match ledger.deposits.may_load(&info.sender) {
                Some(balance) => amount <= u128::MAX - balance,
                None => true,
            },
            Err(_) => true,
        },
        _ => true,
    }
}

/// Takes `withdraw_amount` out of the sender's savings and tells the host
/// to transfer as much of the ledger's denomination to the sender.
///
/// The request goes through exactly when the sender has a balance entry and
/// the entry covers `withdraw_amount`. It is otherwise refused as `NoFunds`,
/// and the ledger stays as it was. Coins attached to the request play no
/// part.
pub fn try_withdraw(ledger: &mut Ledger, info: MessageInfo, withdraw_amount: u128) -> (r: Result<
    Response,
    ContractError,
>)
    ensures
        final(ledger)@ == withdraw_step(
            old(ledger)@,
            info@.sender,
            withdraw_amount as nat,
        ).ledger,
        result_view(r) == withdraw_step(old(ledger)@, info@.sender, withdraw_amount as nat).result,
        r is Ok <==> old(ledger)@.balances.contains_key(info@.sender) && withdraw_amount <= old(
            ledger,
        )@.balances[info@.sender],
        r is Ok ==> final(ledger)@.balances[info@.sender] == old(ledger)@.balances[info@.sender]
            - withdraw_amount,
        r matches Err(e) ==> e@ == ContractErrorView::Payment(PaymentErrorView::NoFunds)
            && final(ledger)@ == old(ledger)@,
{
    let savings_balance = match ledger.deposits.may_load(&info.sender) {
        Some(balance) => balance,
        None => {
            return Err(ContractError::Payment(PaymentError::NoFunds));
        },
    };
    if withdraw_amount > savings_balance {
        return Err(ContractError::Payment(PaymentError::NoFunds));
    }
    let new_balance = savings_balance - withdraw_amount;
    ledger.deposits.save(&info.sender, new_balance);
    let withdrawal_coins = coins(withdraw_amount, ledger.donation_denom.as_str());
    let message = BankMsg::Send { to_address: info.sender, amount: withdrawal_coins };
    let response = Response::new().add_message(message).add_attribute(
        "action",
        String::from_str("withdraw"),
    ).add_attribute("amount", u128_to_decimal(withdraw_amount));
    proof {
        let expected = withdraw_step(old(ledger)@, info@.sender, withdraw_amount as nat);
        assert(response@.messages =~= expected.result->Ok_0.messages);
        assert(response@.attributes =~= expected.result->Ok_0.attributes);
    }
    Ok(response)
}

/// Adds the payment attached to the request to the sender's savings.
///
/// The payment must be exactly one coin, of the ledger's denomination and
/// not zero. A sender without a balance entry gets one, counted from
/// nothing. Any other payment is refused with the reason for it, and the
/// ledger stays as it was.
pub fn try_deposit(ledger: &mut Ledger, info: MessageInfo) -> (r: Result<Response, ContractError>)
    requires
        deposit_fits(old(ledger)@, info@),
    ensures
        final(ledger)@ == deposit_step(old(ledger)@, info@).ledger,
        result_view(r) == deposit_step(old(ledger)@, info@).result,
        r is Ok <==> payment_of(info@.funds, old(ledger)@.donation_denom) is Ok,
        r is Err ==> final(ledger)@ == old(ledger)@,
{
    let deposit_amount = match must_pay(&info, ledger.donation_denom.as_str()) {
        Ok(amount) => amount,
        Err(e) => {
            return Err(ContractError::Payment(e));
        },
    };
    let new_amount = match ledger.deposits.may_load(&info.sender) {
        Some(balance) => balance + deposit_amount,
        None => deposit_amount,
    };
    ledger.deposits.save(&info.sender, new_amount);
    let response = Response::new().add_attribute("action", String::from_str("deposit"))
        .add_attribute("amount", u128_to_decimal(deposit_amount));
    proof {
        let expected = deposit_step(old(ledger)@, info@);
        assert(response@.attributes =~= expected.result->Ok_0.attributes);
    }
    Ok(response)
}

/// Acknowledges the payment attached to the request as a donation.
///
/// The payment must be exactly one coin, of the ledger's denomination and
/// not zero; any other is refused with the reason for it. The ledger stays
/// as it was either way: a donation is kept by the host on the ledger's
/// behalf, and nothing is recorded of it.
pub fn try_donate(ledger: &Ledger, info: MessageInfo) -> (r: Result<Response, ContractError>)
    ensures
        result_view(r) == donate_step(ledger@, info@).result,
        r is Ok <==> payment_of(info@.funds, ledger@.donation_denom) is Ok,
{
    let donation = match must_pay(&info, ledger.donation_denom.as_str()) {
        Ok(amount) => amount,
        Err(e) => {
            return Err(ContractError::Payment(e));
        },
    };
    let response = Response::new().add_attribute("action", String::from_str("donate"))
        .add_attribute("amount", u128_to_decimal(donation)).add_attribute(
        "total",
        String::from_str("total"),
    );
    proof {
        let expected = donate_step(ledger@, info@);
        assert(response@.attributes =~= expected.result->Ok_0.attributes);
    }
    Ok(response)
}

/// Adds one to the counter, whoever asks.
pub fn try_increment(ledger: &mut Ledger) -> (r: Result<Response, ContractError>)
    requires
        old(ledger)@.count < i32::MAX,
    ensures
        final(ledger)@ == increment_step(old(ledger)@).ledger,
        result_view(r) == increment_step(old(ledger)@).result,
        r is Ok,
        final(ledger)@.count == old(ledger)@.count + 1,
{
    ledger.state.count = ledger.state.count + 1;
    let response = Response::new().add_attribute("method", String::from_str("try_increment"));
    proof {
        let expected = increment_step(old(ledger)@);
        assert(response@.attributes =~= expected.result->Ok_0.attributes);
    }
    Ok(response)
}

/// Sets the counter to `count` if the sender of `info` owns the ledger.
///
/// Any other sender is refused as `Unauthorized`, and the counter stays as
/// it was.
pub fn try_reset(ledger: &mut Ledger, info: MessageInfo, count: i32) -> (r: Result<
    Response,
    ContractError,
>)
    ensures
        final(ledger)@ == reset_step(old(ledger)@, info@.sender, count as int).ledger,
        result_view(r) == reset_step(old(ledger)@, info@.sender, count as int).result,
        r is Ok <==> info@.sender == old(ledger)@.owner,
        r is Ok ==> final(ledger)@.count == count,
        r matches Err(e) ==> e@ == ContractErrorView::Unauthorized && final(ledger)@ == old(
            ledger,
        )@,
{
    if info.sender != ledger.state.owner {
        return Err(ContractError::Unauthorized);
    }
    ledger.state.count = count;
    let response = Response::new().add_attribute("method", String::from_str("reset"));
    proof {
        let expected = reset_step(old(ledger)@, info@.sender, count as int);
        assert(response@.attributes =~= expected.result->Ok_0.attributes);
    }
    Ok(response)
}

/// Answers `msg` from the ledger, which it leaves as it is.
pub fn query(ledger: &Ledger, msg: QueryMsg) -> (answer: Result<QueryResponse, ContractError>)
    ensures
        answers(ledger@, msg, answer),
{
    match msg {
        QueryMsg::GetCount {  } => Ok(QueryResponse::Count(query_count(ledger))),
        QueryMsg::GetSavingsBalance { depositor } => {
            match query_savings_balance(ledger, depositor) {
                Ok(balance) => Ok(QueryResponse::SavingsBalance(balance)),
                Err(e) => Err(e),
            }
        },
    }
}

/// The counter's value.
pub fn query_count(ledger: &Ledger) -> (answer: CountResponse)
    ensures
        answer.count == ledger@.count,
{
    CountResponse { count: ledger.state.count }
}

/// What `depositor` has saved. An account without a balance entry is
/// `NotFound`; it is not taken to have saved nothing.
pub fn query_savings_balance(ledger: &Ledger, depositor: String) -> (answer: Result<
    SavingsBalanceResponse,
    ContractError,
>)
    ensures
        match savings_answer(ledger@, depositor@) {
            Ok(balance) => answer matches Ok(s) && s.savings_balance == balance,
            Err(e) => answer matches Err(given) && given@ == e,
        },
{
    match ledger.deposits.may_load(&depositor) {
        Some(deposit) => Ok(SavingsBalanceResponse { savings_balance: deposit }),
        None => Err(ContractError::NotFound),
    }
}

} // verus!

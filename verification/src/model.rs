//! The ledger as a transition system over mathematical values.
//!
//! Each operation is a function from the ledger before it, and what the
//! request carries, to an [`Outcome`]: the ledger after it and what the
//! caller is told. The executable operations are specified by these
//! functions, and the laws of the ledger are proved about them.

use vstd::prelude::*;

use crate::decimal::{decimal, signed_decimal};
use crate::error::{ContractError, ContractErrorView, PaymentErrorView};
use crate::funds::{CoinView, MessageInfoView};
use crate::msg::{ExecuteMsg, QueryMsg, QueryResponse};
use crate::payment::payment_of;
use crate::response::{attr, plain_response, BankMsgView, Response, ResponseView};
use crate::state::LedgerView;

verus! {

/// The ledger after an operation, and what the operation answered.
pub struct Outcome {
    pub ledger: LedgerView,
    pub result: Result<ResponseView, ContractErrorView>,
}

/// The mathematical value of what an operation answered.
pub open spec fn result_view(r: Result<Response, ContractError>) -> Result<
    ResponseView,
    ContractErrorView,
> {
    match r {
        Ok(response) => Ok(response@),
        Err(e) => Err(e@),
    }
}

/// The operation is refused with `e`, and the ledger stays as it is.
pub open spec fn refused(l: LedgerView, e: ContractErrorView) -> Outcome {
    Outcome { ledger: l, result: Err(e) }
}

/// What `account` has saved; nothing, where it has no entry.
pub open spec fn balance_or_zero(balances: Map<Seq<char>, nat>, account: Seq<char>) -> nat {
    if balances.contains_key(account) {
        balances[account]
    } else {
        0
    }
}

/// The ledger that `owner` sets up: the counter at `count`, payments in
/// `donation_denom`, and no balance entry.
pub open spec fn initial_ledger(owner: Seq<char>, count: int, donation_denom: Seq<char>)
    -> LedgerView {
    LedgerView { count, owner, donation_denom, balances: Map::empty() }
}

/// What setting up a ledger answers.
pub open spec fn initial_response(owner: Seq<char>, count: int, donation_denom: Seq<char>)
    -> ResponseView {
    plain_response(
        seq![
            attr("method"@, "instantiate"@),
            attr("owner"@, owner),
            attr("count"@, signed_decimal(count)),
            attr("denom"@, donation_denom),
        ],
    )
}

/// Increment: the counter goes up by one. Nobody is refused.
pub open spec fn increment_step(l: LedgerView) -> Outcome {
    Outcome {
        ledger: LedgerView { count: l.count + 1, ..l },
        result: Ok(plain_response(seq![attr("method"@, "try_increment"@)])),
    }
}

/// Reset: the owner sets the counter to `count`; anyone else is refused as
/// `Unauthorized`.
pub open spec fn reset_step(l: LedgerView, sender: Seq<char>, count: int) -> Outcome {
    if sender == l.owner {
        Outcome {
            ledger: LedgerView { count, ..l },
            result: Ok(plain_response(seq![attr("method"@, "reset"@)])),
        }
    } else {
        refused(l, ContractErrorView::Unauthorized)
    }
}

/// Deposit: a valid payment is added to what the sender has saved, from
/// nothing if the sender had no entry; an invalid one is refused with the
/// reason that [`payment_of`] gives.
pub open spec fn deposit_step(l: LedgerView, info: MessageInfoView) -> Outcome {
    match payment_of(info.funds, l.donation_denom) {
        Ok(amount) => Outcome {
            ledger: LedgerView {
                balances: l.balances.insert(
                    info.sender,
                    balance_or_zero(l.balances, info.sender) + amount,
                ),
                ..l
            },
            result: Ok(
                plain_response(seq![attr("action"@, "deposit"@), attr("amount"@, decimal(amount))]),
            ),
        },
        Err(e) => refused(l, ContractErrorView::Payment(e)),
    }
}

/// The instruction to transfer `amount` of `denom` to `to_address`.
pub open spec fn transfer(to_address: Seq<char>, amount: nat, denom: Seq<char>) -> BankMsgView {
    BankMsgView::Send { to_address, amount: seq![CoinView { denom, amount }] }
}

/// Withdraw: where the sender has an entry that covers `amount`, the entry
/// goes down by `amount` and the host is told to transfer as much to the
/// sender; otherwise the request is refused as `NoFunds`.
pub open spec fn withdraw_step(l: LedgerView, sender: Seq<char>, amount: nat) -> Outcome {
    if l.balances.contains_key(sender) && amount <= l.balances[sender] {
        Outcome {
            ledger: LedgerView {
                balances: l.balances.insert(sender, (l.balances[sender] - amount) as nat),
                ..l
            },
            result: Ok(
                ResponseView {
                    messages: seq![transfer(sender, amount, l.donation_denom)],
                    attributes: seq![
                        attr("action"@, "withdraw"@),
                        attr("amount"@, decimal(amount)),
                    ],
                },
            ),
        }
    } else {
        refused(l, ContractErrorView::Payment(PaymentErrorView::NoFunds))
    }
}

/// Donate: a valid payment is acknowledged and the ledger stays as it is;
/// an invalid one is refused with the reason that [`payment_of`] gives.
pub open spec fn donate_step(l: LedgerView, info: MessageInfoView) -> Outcome {
    match payment_of(info.funds, l.donation_denom) {
        Ok(amount) => Outcome {
            ledger: l,
            result: Ok(
                plain_response(
                    seq![
                        attr("action"@, "donate"@),
                        attr("amount"@, decimal(amount)),
                        attr("total"@, "total"@),
                    ],
                ),
            ),
        },
        Err(e) => refused(l, ContractErrorView::Payment(e)),
    }
}

/// The operation that `msg` asks for, on behalf of the sender of `info`.
pub open spec fn execute_step(l: LedgerView, info: MessageInfoView, msg: ExecuteMsg) -> Outcome {
    match msg {
        ExecuteMsg::Increment {  } => increment_step(l),
        ExecuteMsg::Reset { count } => reset_step(l, info.sender, count as int),
        ExecuteMsg::Donate {  } => donate_step(l, info),
        ExecuteMsg::Deposit {  } => deposit_step(l, info),
        ExecuteMsg::Withdraw { withdraw_amount } => withdraw_step(
            l,
            info.sender,
            withdraw_amount as nat,
        ),
    }
}

/// Whether the deposit that `info` asks for, if its payment is valid, leaves
/// the sender's balance within 128 bits.
pub open spec fn deposit_fits(l: LedgerView, info: MessageInfoView) -> bool {
    payment_of(info.funds, l.donation_denom) matches Ok(amount) ==> balance_or_zero(
        l.balances,
        info.sender,
    ) + amount <= u128::MAX
}

/// Whether the machine can hold what `msg` leads to: the counter after an
/// increment in 32 bits, the sender's balance after a deposit in 128 bits.
/// Every other request is within limits.
pub open spec fn within_limits(l: LedgerView, info: MessageInfoView, msg: ExecuteMsg) -> bool {
    match msg {
        ExecuteMsg::Increment {  } => l.count < i32::MAX,
        ExecuteMsg::Deposit {  } => deposit_fits(l, info),
        _ => true,
    }
}

/// What `depositor` has saved; `NotFound` where it has no entry.
pub open spec fn savings_answer(l: LedgerView, depositor: Seq<char>) -> Result<
    nat,
    ContractErrorView,
> {
    if l.balances.contains_key(depositor) {
        Ok(l.balances[depositor])
    } else {
        Err(ContractErrorView::NotFound)
    }
}

/// Whether `answer` is the answer to `msg` on the ledger `l`: the counter's
/// value, or what the depositor has saved as [`savings_answer`] gives it.
pub open spec fn answers(
    l: LedgerView,
    msg: QueryMsg,
    answer: Result<QueryResponse, ContractError>,
) -> bool {
    match msg {
        QueryMsg::GetCount {  } => answer matches Ok(QueryResponse::Count(c)) && c.count
            == l.count,
        QueryMsg::GetSavingsBalance { depositor } => match savings_answer(l, depositor@) {
            Ok(balance) => answer matches Ok(QueryResponse::SavingsBalance(s))
                && s.savings_balance == balance,
            Err(e) => answer matches Err(given) && given@ == e,
        },
    }
}

} // verus!

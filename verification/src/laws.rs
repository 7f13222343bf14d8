//! What holds of the ledger whatever is asked of it, proved about the
//! transition functions that specify the operations.

use vstd::prelude::*;

use crate::error::{ContractErrorView, PaymentErrorView};
use crate::funds::{CoinView, MessageInfoView};
use crate::model::{
    balance_or_zero, deposit_step, execute_step, initial_ledger, refused, reset_step,
    withdraw_step,
};
use crate::msg::ExecuteMsg;
use crate::payment::payment_of;
use crate::state::LedgerView;

verus! {

/// The sum of `amounts`.
pub open spec fn sum(amounts: Seq<nat>) -> nat
    decreases amounts.len(),
{
    if amounts.len() == 0 {
        0
    } else {
        sum(amounts.drop_last()) + amounts.last()
    }
}

/// A request from `sender` that pays `amount` in one coin of `denom`.
pub open spec fn paying(sender: Seq<char>, amount: nat, denom: Seq<char>) -> MessageInfoView {
    MessageInfoView { sender, funds: seq![CoinView { denom, amount }] }
}

/// The ledger after `sender` has asked for one deposit for each of
/// `amounts`, in order, each paid in one coin of the ledger's denomination.
pub open spec fn after_deposits(l: LedgerView, sender: Seq<char>, amounts: Seq<nat>) -> LedgerView
    decreases amounts.len(),
{
    if amounts.len() == 0 {
        l
    } else {
        deposit_step(
            after_deposits(l, sender, amounts.drop_last()),
            paying(sender, amounts.last(), l.donation_denom),
        ).ledger
    }
}

/// Deposits add up: after any run of deposits by one account, each paid in
/// the ledger's denomination, the account's balance has grown by the sum of
/// the amounts. An account that had no entry therefore holds exactly the
/// sum. Nothing else in the ledger has changed.
pub proof fn deposits_accumulate(l: LedgerView, sender: Seq<char>, amounts: Seq<nat>)
    ensures
        balance_or_zero(after_deposits(l, sender, amounts).balances, sender) == balance_or_zero(
            l.balances,
            sender,
        ) + sum(amounts),
        !l.balances.contains_key(sender) ==> balance_or_zero(
            after_deposits(l, sender, amounts).balances,
            sender,
        ) == sum(amounts),
        sum(amounts) > 0 ==> after_deposits(l, sender, amounts).balances.contains_key(sender),
        after_deposits(l, sender, amounts).count == l.count,
        after_deposits(l, sender, amounts).owner == l.owner,
        after_deposits(l, sender, amounts).donation_denom == l.donation_denom,
        forall|other: Seq<char>|
            other != sender ==> (#[trigger] after_deposits(
                l,
                sender,
                amounts,
            ).balances.contains_key(other) <==> l.balances.contains_key(other)),
        forall|other: Seq<char>|
            other != sender && l.balances.contains_key(other) ==> #[trigger] after_deposits(
                l,
                sender,
                amounts,
            ).balances[other] == l.balances[other],
    decreases amounts.len(),
{
    if amounts.len() > 0 {
        deposits_accumulate(l, sender, amounts.drop_last());
    }
}

/// A withdrawal goes through exactly when the sender has a balance entry
/// that covers the amount, and then leaves the balance less the amount.
/// Otherwise it is refused as `NoFunds`, and the ledger stays as it was.
pub proof fn withdrawal_is_decided_by_the_balance(l: LedgerView, sender: Seq<char>, amount: nat)
    ensures
        withdraw_step(l, sender, amount).result is Ok <==> l.balances.contains_key(sender)
            && amount <= l.balances[sender],
        withdraw_step(l, sender, amount).result is Ok ==> withdraw_step(
            l,
            sender,
            amount,
        ).ledger.balances[sender] == l.balances[sender] - amount,
        withdraw_step(l, sender, amount).result is Err ==> withdraw_step(l, sender, amount)
            == refused(l, ContractErrorView::Payment(PaymentErrorView::NoFunds)),
{
}

/// A reset goes through exactly when the owner asks for it, and then sets
/// the counter. Anyone else is refused as `Unauthorized`, and the counter
/// stays as it was.
pub proof fn reset_is_decided_by_the_owner(l: LedgerView, sender: Seq<char>, count: int)
    ensures
        reset_step(l, sender, count).result is Ok <==> sender == l.owner,
        reset_step(l, sender, count).result is Ok ==> reset_step(l, sender, count).ledger.count
            == count,
        reset_step(l, sender, count).result is Err ==> reset_step(l, sender, count) == refused(
            l,
            ContractErrorView::Unauthorized,
        ),
{
}

/// An increment does not look at who asks: for any two requests it leaves
/// the same ledger and gives the same answer, it is never refused, and the
/// counter is one more than before.
pub proof fn increment_ignores_caller(l: LedgerView, one: MessageInfoView, other: MessageInfoView)
    ensures
        execute_step(l, one, ExecuteMsg::Increment {  }) == execute_step(
            l,
            other,
            ExecuteMsg::Increment {  },
        ),
        execute_step(l, one, ExecuteMsg::Increment {  }).result is Ok,
        execute_step(l, one, ExecuteMsg::Increment {  }).ledger.count == l.count + 1,
{
}

/// Whether the sender of `info` has a balance entry that covers what the
/// withdrawal `msg` asks for.
pub open spec fn covered(l: LedgerView, info: MessageInfoView, msg: ExecuteMsg) -> bool {
    msg matches ExecuteMsg::Withdraw { withdraw_amount } && l.balances.contains_key(info.sender)
        && withdraw_amount <= l.balances[info.sender]
}

/// A deposit or a donation that comes with a coin of any denomination other
/// than the ledger's is refused, and the ledger stays as it was. So is a
/// withdrawal that comes with such a coin, unless the sender's balance
/// covers it: a withdrawal is decided by the balance alone, and the coins
/// that come with it are not looked at.
pub proof fn foreign_coin_is_refused(l: LedgerView, info: MessageInfoView, msg: ExecuteMsg, i: int)
    requires
        msg is Deposit || msg is Donate || msg is Withdraw,
        !covered(l, info, msg),
        0 <= i < info.funds.len(),
        info.funds[i].denom != l.donation_denom,
    ensures
        execute_step(l, info, msg).result is Err,
        execute_step(l, info, msg).ledger == l,
{
}

/// A request that is refused changes nothing.
pub proof fn refusal_changes_nothing(l: LedgerView, info: MessageInfoView, msg: ExecuteMsg)
    requires
        execute_step(l, info, msg).result is Err,
    ensures
        execute_step(l, info, msg).ledger == l,
{
}

/// The counter moves only by an increment, which adds one, or by a reset
/// that the owner asks for.
pub proof fn counter_moves_by_increment_or_owner(
    l: LedgerView,
    info: MessageInfoView,
    msg: ExecuteMsg,
)
    ensures
        execute_step(l, info, msg).ledger.count != l.count ==> msg is Increment || (msg is Reset
            && info.sender == l.owner),
        msg is Increment ==> execute_step(l, info, msg).ledger.count == l.count + 1,
{
}

/// No request changes the owner or the denomination.
pub proof fn owner_and_denomination_are_fixed(
    l: LedgerView,
    info: MessageInfoView,
    msg: ExecuteMsg,
)
    ensures
        execute_step(l, info, msg).ledger.owner == l.owner,
        execute_step(l, info, msg).ledger.donation_denom == l.donation_denom,
{
}

/// A request touches no balance but the sender's, and never removes an
/// entry.
pub proof fn other_balances_are_untouched(
    l: LedgerView,
    info: MessageInfoView,
    msg: ExecuteMsg,
    account: Seq<char>,
)
    ensures
        l.balances.contains_key(account) ==> execute_step(l, info, msg).ledger.balances.contains_key(
            account,
        ),
        account != info.sender ==> (execute_step(l, info, msg).ledger.balances.contains_key(account)
            <==> l.balances.contains_key(account)),
        account != info.sender ==> execute_step(l, info, msg).ledger.balances[account]
            == l.balances[account],
{
}

/// The sum of all balances of a finite sheet.
pub open spec fn total(balances: Map<Seq<char>, nat>) -> nat
    decreases balances.dom().len(),
    when balances.dom().finite()
{
    if balances.dom().len() == 0 {
        0
    } else {
        let account = balances.dom().choose();
        balances[account] + total(balances.remove(account))
    }
}

/// The total is the balance of any one account plus the total of the rest.
proof fn lemma_total_split(balances: Map<Seq<char>, nat>, account: Seq<char>)
    requires
        balances.dom().finite(),
        balances.contains_key(account),
    ensures
        total(balances) == balances[account] + total(balances.remove(account)),
    decreases balances.dom().len(),
{
    let chosen = balances.dom().choose();
    if chosen != account {
        lemma_total_split(balances.remove(chosen), account);
        lemma_total_split(balances.remove(account), chosen);
        assert(balances.remove(chosen).remove(account) =~= balances.remove(account).remove(chosen));
    }
}

/// Setting one balance changes the total by the difference.
proof fn lemma_total_insert(balances: Map<Seq<char>, nat>, account: Seq<char>, balance: nat)
    requires
        balances.dom().finite(),
    ensures
        total(balances.insert(account, balance)) == total(balances) - balance_or_zero(
            balances,
            account,
        ) + balance,
{
    let next = balances.insert(account, balance);
    lemma_total_split(next, account);
    assert(next.remove(account) =~= balances.remove(account));
    if balances.contains_key(account) {
        lemma_total_split(balances, account);
    } else {
        assert(balances.remove(account) =~= balances);
    }
}

/// What a request adds to the sheet: the amount paid, for a deposit that
/// goes through, and nothing otherwise.
pub open spec fn credited(l: LedgerView, info: MessageInfoView, msg: ExecuteMsg) -> nat {
    match msg {
        ExecuteMsg::Deposit {  } => match payment_of(info.funds, l.donation_denom) {
            Ok(amount) => amount,
            Err(_) => 0,
        },
        _ => 0,
    }
}

/// What a request takes off the sheet: the amount asked for, for a
/// withdrawal that goes through, and nothing otherwise.
pub open spec fn debited(l: LedgerView, info: MessageInfoView, msg: ExecuteMsg) -> nat {
    match msg {
        ExecuteMsg::Withdraw { withdraw_amount } => if execute_step(l, info, msg).result is Ok {
            withdraw_amount as nat
        } else {
            0
        },
        _ => 0,
    }
}

/// Funds are conserved by every request: the total of the sheet grows by
/// what the request credits and shrinks by what it debits, and by nothing
/// else. The sheet stays finite.
pub proof fn request_conserves_funds(l: LedgerView, info: MessageInfoView, msg: ExecuteMsg)
    requires
        l.balances.dom().finite(),
    ensures
        execute_step(l, info, msg).ledger.balances.dom().finite(),
        total(execute_step(l, info, msg).ledger.balances) == total(l.balances) + credited(
            l,
            info,
            msg,
        ) - debited(l, info, msg),
{
    let next = execute_step(l, info, msg).ledger;
    match msg {
        ExecuteMsg::Deposit {  } => {
            if let Ok(amount) = payment_of(info.funds, l.donation_denom) {
                lemma_total_insert(
                    l.balances,
                    info.sender,
                    balance_or_zero(l.balances, info.sender) + amount,
                );
            }
        },
        ExecuteMsg::Withdraw { withdraw_amount } => {
            if execute_step(l, info, msg).result is Ok {
                lemma_total_insert(
                    l.balances,
                    info.sender,
                    (l.balances[info.sender] - withdraw_amount) as nat,
                );
            }
        },
        _ => {},
    }
}

/// One request: who asks, with what payment, and for what.
pub struct Request {
    pub info: MessageInfoView,
    pub msg: ExecuteMsg,
}

/// The ledger after `requests` have been carried out in order.
pub open spec fn run(l: LedgerView, requests: Seq<Request>) -> LedgerView
    decreases requests.len(),
{
    if requests.len() == 0 {
        l
    } else {
        execute_step(run(l, requests.drop_last()), requests.last().info, requests.last().msg).ledger
    }
}

/// All that `requests`, carried out in order from `l`, credit to the sheet.
pub open spec fn deposited(l: LedgerView, requests: Seq<Request>) -> nat
    decreases requests.len(),
{
    if requests.len() == 0 {
        0
    } else {
        deposited(l, requests.drop_last()) + credited(
            run(l, requests.drop_last()),
            requests.last().info,
            requests.last().msg,
        )
    }
}

/// All that `requests`, carried out in order from `l`, debit from the sheet.
pub open spec fn withdrawn(l: LedgerView, requests: Seq<Request>) -> nat
    decreases requests.len(),
{
    if requests.len() == 0 {
        0
    } else {
        withdrawn(l, requests.drop_last()) + debited(
            run(l, requests.drop_last()),
            requests.last().info,
            requests.last().msg,
        )
    }
}

/// Funds are conserved over any history: the total of the sheet is what it
/// was, plus all that was deposited, minus all that was withdrawn.
pub proof fn history_conserves_funds(l: LedgerView, requests: Seq<Request>)
    requires
        l.balances.dom().finite(),
    ensures
        run(l, requests).balances.dom().finite(),
        total(run(l, requests).balances) == total(l.balances) + deposited(l, requests) - withdrawn(
            l,
            requests,
        ),
    decreases requests.len(),
{
    if requests.len() > 0 {
        history_conserves_funds(l, requests.drop_last());
        request_conserves_funds(
            run(l, requests.drop_last()),
            requests.last().info,
            requests.last().msg,
        );
    }
}

/// A ledger never claims more than it was credited: after any history
/// since it was set up, the total of the sheet is what was deposited less
/// what was withdrawn. So the sheet never exceeds the deposits, and no more
/// is ever withdrawn than was deposited.
pub proof fn sheet_never_exceeds_deposits(
    owner: Seq<char>,
    count: int,
    donation_denom: Seq<char>,
    requests: Seq<Request>,
)
    ensures
        total(run(initial_ledger(owner, count, donation_denom), requests).balances) == deposited(
            initial_ledger(owner, count, donation_denom),
            requests,
        ) - withdrawn(initial_ledger(owner, count, donation_denom), requests),
        total(run(initial_ledger(owner, count, donation_denom), requests).balances) <= deposited(
            initial_ledger(owner, count, donation_denom),
            requests,
        ),
        withdrawn(initial_ledger(owner, count, donation_denom), requests) <= deposited(
            initial_ledger(owner, count, donation_denom),
            requests,
        ),
{
    let l = initial_ledger(owner, count, donation_denom);
    assert(l.balances.dom() =~= Set::empty());
    history_conserves_funds(l, requests);
}

} // verus!

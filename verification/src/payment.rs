//! The rule that a request pays with exactly one coin of one denomination.

use vstd::prelude::*;

use crate::error::{PaymentError, PaymentErrorView};
use crate::funds::{CoinView, MessageInfo};

verus! {

/// What a payment of `funds` is worth where exactly one non-zero coin of
/// `denom` is asked for: the coin's amount, or the reason for refusing it.
///
/// Nothing sent, or a single coin of amount zero, is `NoFunds`; a single
/// coin of another denomination is `MissingDenom` with the denomination
/// asked for; two or more coins are `MultipleDenoms`.
pub open spec fn payment_of(funds: Seq<CoinView>, denom: Seq<char>) -> Result<
    nat,
    PaymentErrorView,
> {
    if funds.len() == 0 {
        Err(PaymentErrorView::NoFunds)
    } else if funds.len() == 1 {
        if funds[0].amount == 0 {
            Err(PaymentErrorView::NoFunds)
        } else if funds[0].denom != denom {
            Err(PaymentErrorView::MissingDenom(denom))
        } else {
            Ok(funds[0].amount)
        }
    } else {
        Err(PaymentErrorView::MultipleDenoms)
    }
}

/// A payment is refused for one of three reasons only: nothing was sent,
/// the coin sent is of another denomination, or several coins were sent.
/// The denomination that a refusal names is the one asked for.
pub proof fn payment_refusals(funds: Seq<CoinView>, denom: Seq<char>)
    ensures
        payment_of(funds, denom) matches Err(e) ==> e is NoFunds || e is MultipleDenoms || e
            == PaymentErrorView::MissingDenom(denom),
        payment_of(funds, denom) matches Ok(amount) ==> amount > 0 && funds == seq![
            CoinView { denom, amount },
        ],
{
    if let Ok(amount) = payment_of(funds, denom) {
        assert(funds =~= seq![CoinView { denom, amount }]);
    }
}

/// The mathematical value of the outcome of a payment check.
pub open spec fn payment_view(r: Result<u128, PaymentError>) -> Result<nat, PaymentErrorView> {
    match r {
        Ok(amount) => Ok(amount as nat),
        Err(e) => Err(e@),
    }
}

/// Asks `cw_utils::must_pay` what the request's payment is worth in `denom`.
///
/// Not proved: Verus takes this contract on trust. It claims of
/// `cw_utils::must_pay` what its source shows: the amount of the only coin
/// sent, where that coin is not zero and is of `denom`; `NoFunds` where
/// nothing or a coin of zero was sent; `MissingDenom` with `denom` where the
/// only coin is of another denomination; `MultipleDenoms` where two or more
/// coins were sent. The sender is handed over and plays no part.
#[verifier::external_body]
pub(crate) fn must_pay(info: &MessageInfo, denom: &str) -> (r: Result<u128, PaymentError>)
    ensures
        payment_view(r) == payment_of(info@.funds, denom@),
{
    let funds = info.funds.iter().map(|c| cosmwasm_std::coin(c.amount, c.denom.as_str())).collect();
    let sender = cosmwasm_std::Addr::unchecked(info.sender.as_str());
    match cw_utils::must_pay(&cosmwasm_std::MessageInfo { sender, funds }, denom) {
        Ok(amount) => Ok(amount.u128()),
        Err(cw_utils::PaymentError::MissingDenom(d)) => Err(PaymentError::MissingDenom(d)),
        Err(cw_utils::PaymentError::ExtraDenom(d)) => Err(PaymentError::ExtraDenom(d)),
        Err(cw_utils::PaymentError::MultipleDenoms {}) => Err(PaymentError::MultipleDenoms),
        Err(cw_utils::PaymentError::NoFunds {}) => Err(PaymentError::NoFunds),
        Err(cw_utils::PaymentError::NonPayable {}) => Err(PaymentError::NonPayable),
    }
}

} // verus!

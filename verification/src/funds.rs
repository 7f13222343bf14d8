//! What arrives with a request: the caller's identity and the coins attached
//! to it.

use vstd::prelude::*;
use vstd::string::StringExecFns;

verus! {

/// An amount of one fungible asset.
#[derive(Clone, Debug, PartialEq, Eq)]
pub struct Coin {
    pub denom: String,
    pub amount: u128,
}

/// The mathematical value of a [`Coin`].
pub struct CoinView {
    pub denom: Seq<char>,
    pub amount: nat,
}

impl View for Coin {
    type V = CoinView;

    open spec fn view(&self) -> CoinView {
        CoinView { denom: self.denom@, amount: self.amount as nat }
    }
}

/// The values of a list of coins, in order.
pub open spec fn coins_view(coins: Seq<Coin>) -> Seq<CoinView> {
    coins.map_values(|c: Coin| c@)
}

/// The sender of a request and the payment attached to it.
#[derive(Clone, Debug, PartialEq, Eq)]
pub struct MessageInfo {
    pub sender: String,
    pub funds: Vec<Coin>,
}

/// The mathematical value of a [`MessageInfo`].
pub struct MessageInfoView {
    pub sender: Seq<char>,
    pub funds: Seq<CoinView>,
}

impl View for MessageInfo {
    type V = MessageInfoView;

    open spec fn view(&self) -> MessageInfoView {
        MessageInfoView { sender: self.sender@, funds: coins_view(self.funds@) }
    }
}

/// `amount` of the asset `denom`.
pub fn coin(amount: u128, denom: &str) -> (c: Coin)
    ensures
        c@ == (CoinView { denom: denom@, amount: amount as nat }),
{
    Coin { denom: String::from_str(denom), amount }
}

/// A payment of exactly one coin.
pub fn coins(amount: u128, denom: &str) -> (funds: Vec<Coin>)
    ensures
        coins_view(funds@) == seq![CoinView { denom: denom@, amount: amount as nat }],
{
    let mut funds: Vec<Coin> = Vec::new();
    funds.push(coin(amount, denom));
    assert(coins_view(funds@) =~= seq![CoinView { denom: denom@, amount: amount as nat }]);
    funds
}

/// A request from `sender` that carries `funds`.
pub fn message_info(sender: &str, funds: Vec<Coin>) -> (info: MessageInfo)
    ensures
        info@ == (MessageInfoView { sender: sender@, funds: coins_view(funds@) }),
{
    MessageInfo { sender: String::from_str(sender), funds }
}

} // verus!

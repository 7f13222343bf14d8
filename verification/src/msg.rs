//! The requests that the ledger takes and the answers to its queries.

use vstd::prelude::*;

verus! {

/// Sets up a ledger: the counter's first value and the denomination that
/// all payments must be made in.
#[derive(Clone, Debug, PartialEq, Eq)]
pub struct InstantiateMsg {
    pub count: i32,
    pub donation_denom: String,
}

/// A request that may change the ledger.
#[derive(Clone, Debug, PartialEq, Eq)]
pub enum ExecuteMsg {
    /// Add one to the counter.
    Increment {  },
    /// Set the counter; only the owner may.
    Reset { count: i32 },
    /// Give the attached payment away.
    Donate {  },
    /// Add the attached payment to the sender's savings.
    Deposit {  },
    /// Take `withdraw_amount` out of the sender's savings.
    Withdraw { withdraw_amount: u128 },
}

/// A request that only reads the ledger.
#[derive(Clone, Debug, PartialEq, Eq)]
pub enum QueryMsg {
    /// The counter's value.
    GetCount {  },
    /// The savings balance of `depositor`.
    GetSavingsBalance { depositor: String },
}

/// The answer to `GetCount`.
#[derive(Clone, Copy, Debug, PartialEq, Eq)]
pub struct CountResponse {
    pub count: i32,
}

/// The answer to `GetSavingsBalance`.
#[derive(Clone, Copy, Debug, PartialEq, Eq)]
pub struct SavingsBalanceResponse {
    pub savings_balance: u128,
}

/// The answer to a query, by the kind of query asked.
#[derive(Clone, Copy, Debug, PartialEq, Eq)]
pub enum QueryResponse {
    Count(CountResponse),
    SavingsBalance(SavingsBalanceResponse),
}

} // verus!

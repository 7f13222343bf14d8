//! The typed failures of the ledger's operations.

use vstd::prelude::*;

verus! {

/// Why an attached payment was not accepted.
#[derive(Clone, Debug, PartialEq, Eq)]
pub enum PaymentError {
    /// The single coin sent is not of the required denomination, which is
    /// carried here.
    MissingDenom(String),
    /// A coin of an unsupported denomination, carried here, was sent. No
    /// operation of this ledger refuses a payment so.
    ExtraDenom(String),
    /// More than one coin was sent.
    MultipleDenoms,
    /// Nothing was sent, or there is nothing to take.
    NoFunds,
    /// Coins were sent with a request that takes none. No operation of this
    /// ledger refuses a payment so.
    NonPayable,
}

/// The mathematical value of a [`PaymentError`].
pub enum PaymentErrorView {
    MissingDenom(Seq<char>),
    ExtraDenom(Seq<char>),
    MultipleDenoms,
    NoFunds,
    NonPayable,
}

impl View for PaymentError {
    type V = PaymentErrorView;

    open spec fn view(&self) -> PaymentErrorView {
        match self {
            PaymentError::MissingDenom(denom) => PaymentErrorView::MissingDenom(denom@),
            PaymentError::ExtraDenom(denom) => PaymentErrorView::ExtraDenom(denom@),
            PaymentError::MultipleDenoms => PaymentErrorView::MultipleDenoms,
            PaymentError::NoFunds => PaymentErrorView::NoFunds,
            PaymentError::NonPayable => PaymentErrorView::NonPayable,
        }
    }
}

/// Why an operation of the ledger was refused.
#[derive(Clone, Debug, PartialEq, Eq)]
pub enum ContractError {
    /// The caller is not the owner.
    Unauthorized,
    /// The payment, or the balance to draw on, does not allow the operation.
    Payment(PaymentError),
    /// The account asked about has no balance entry.
    NotFound,
}

/// The mathematical value of a [`ContractError`].
pub enum ContractErrorView {
    Unauthorized,
    Payment(PaymentErrorView),
    NotFound,
}

impl View for ContractError {
    type V = ContractErrorView;

    open spec fn view(&self) -> ContractErrorView {
        match self {
            ContractError::Unauthorized => ContractErrorView::Unauthorized,
            ContractError::Payment(e) => ContractErrorView::Payment(e@),
            ContractError::NotFound => ContractErrorView::NotFound,
        }
    }
}

} // verus!

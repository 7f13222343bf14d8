//! A minimal custodial ledger: one counter that only its owner may reset, and
//! a sheet of per-account savings balances held in one fixed denomination.
//!
//! An instance is a [`state::Ledger`]. Every operation of [`contract`] is a
//! verified function from the ledger and the incoming request to the next
//! ledger and a [`response::Response`] or a typed refusal. The contracts are
//! stated over the transition functions of [`model`], and [`laws`] proves
//! what holds of every ledger: deposits add up, a refusal changes nothing,
//! and the sheet never holds more than was deposited.
//!
//! The ledger keeps no store and moves no coins. Its host reads the instance
//! in, hands each request over with the coins that came with it, carries out
//! the transfers that a response asks for, and writes the instance back.

pub mod contract;
pub mod decimal;
pub mod error;
pub mod funds;
pub mod laws;
pub mod model;
pub mod msg;
pub mod payment;
pub mod response;
pub mod state;

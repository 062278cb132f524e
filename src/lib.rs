//! A fungible-token ledger: balances, delegated-spend allowances and the
//! events that record every change, with checked arithmetic throughout.

pub mod account;
pub mod entries;
pub mod erc20;
pub mod interactor;
pub mod laws;

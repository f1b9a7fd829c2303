//! A ledger that splits each payment between two recipients, keeps a one
//! percent fee for its owner, and pays balances out on request.

pub mod contract;
pub mod error;
pub mod helpers;
pub mod ledger;
pub mod msg;
pub mod response;
pub mod state;

pub use crate::error::ContractError;

//! Ledger state-transition engines of a blockchain runtime: bounties with their escrow,
//! spending budgets with their periodic rewards, service channels of a gateway, and storage
//! buckets. Every engine is a value that a call takes from one state to the next; what a call
//! returns and what it leaves is stated over a model of the state and proved.

pub mod authorization;
pub mod bounty;
pub mod common;
pub mod gateway;
pub mod ledger;
pub mod spending_budget;
pub mod storage;
pub mod sums;

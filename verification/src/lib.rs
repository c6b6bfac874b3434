//! Verified model of the Tezoro yield aggregator: an ERC-4626-style vault
//! that pools deposits, routes them into strategies (a Blend v2 lending-pool
//! adapter and a test double), and pays redemptions through a withdrawal
//! waterfall.
//!
//! Each contract is modelled as a value holding exactly what the contract keeps
//! in its ledger storage, with one method per entry point. Whatever the host
//! supplies (the ledger clock, token balances, answers of other contracts) is
//! an argument; whatever the host must carry out afterwards (token transfers,
//! pool requests, events) is part of the result or of the event log.

pub mod address;
pub mod balance_table;
pub mod common;
pub mod math;
pub mod vault;
pub mod vault_events;
pub mod vault_shares;
pub mod vault_redeem;
pub mod vault_strategies;
pub mod vault_fees;
pub mod vault_admin;
pub mod vault_laws;
pub mod vault_ranges;
pub mod blend_events;
pub mod blend_strategy;
pub mod blend_admin;
pub mod blend_laws;
pub mod mock_strategy;

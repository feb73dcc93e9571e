//! Swap-then-deposit orchestration for a ledger contract.
//!
//! The library decides; the host performs. A zap session is a state
//! machine that hands out one host action at a time (an authorization
//! check, a token transfer, an allowance, a cross-contract call) and takes
//! back the host's reply. The address registry, the vault directory, the
//! reply decoding and the administrator guard are plain verified functions.

mod address;
mod admin;
mod config;
mod directory;
mod interfaces;
mod mocks;
mod zap;

pub use address::Address;
pub use admin::{lemma_admin_drain, recorded, withdrawal_of, AdminRecord, Withdrawal};
pub use config::{contract_table, vault_table, ContractAddresses, Network, VaultAddresses};
pub use directory::{available_vaults, lemma_vault_directory, strkeys_of};
pub use interfaces::{SwapRoute, VaultInfo};
pub use mocks::{fixed_rate_out, MockSoroswapAggregator, MockVault};
pub use zap::{
    decode_amount, failure_of, lemma_non_positive_amount_run, lemma_quote_matches_zap,
    lemma_same_asset_run, Action, Query, Reply, Stage, SwapPath, Zap,
    ZapError, ZapResult, AGGREGATOR_ALLOWANCE_LEDGERS, VAULT_ALLOWANCE_LEDGERS,
};

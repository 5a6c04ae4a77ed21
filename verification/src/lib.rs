//! Core of a token-faucet backend: rate-limited claims of on-chain tokens.
//!
//! The library verifies the claim-rate-limiting and transaction-dispatch
//! subsystem: recording when an identity last claimed on a chain, deciding
//! eligibility against a cooldown window, and serializing outbound transfer
//! jobs through a single-writer dispatcher. The HTTP, OAuth and chain-RPC
//! layers around it are unverified collaborators that exchange plain values
//! with this crate.

pub mod address;
pub mod auth;
pub mod codec;
pub mod config;
pub mod dispatcher;
pub mod error;
pub mod faucet;
pub mod hexutil;
pub mod ledger;
pub mod model;
pub mod network;
pub mod registry;
pub mod store;
pub mod strutil;

//! Rent recovery for sponsored accounts: discovery of sponsored accounts from
//! parsed transaction history, eligibility classification, reclaim planning,
//! batching, and reconciliation of passive treasury deposits.

pub mod address;
pub mod text;
pub mod discovery;
pub mod models;
pub mod rent;
pub mod eligibility;
pub mod engine;
pub mod batch;
pub mod reconciliation;
pub mod rate_limit;
pub mod display;
pub mod config;
pub mod kora;
pub mod navigation;


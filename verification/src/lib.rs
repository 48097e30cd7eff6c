//! Orchestration core of a faucet in front of a ledger network: picking a
//! reachable node, gating a transfer on the recipient's balance, and
//! confirming a submission by bounded polling.

pub mod config;
pub mod confirm;
pub mod eligibility;
pub mod flow;
pub mod list;
pub mod models;
pub mod node;
pub mod replies;
pub mod selector;
pub mod service;
pub mod state;
pub mod text;

//! Transition validator for a dead man's switch vault.
//!
//! An owner holds funds in a vault and proves liveness with a heartbeat; once
//! the heartbeat has lapsed for the vault's timeout, the heir may claim. This
//! crate decides whether a proposed transition of such a vault is acceptable.

pub mod contract;
pub mod laws;
pub mod state;
pub mod transition;

pub use contract::{app_contract, validate, Rejection};
pub use state::{Action, VaultState};
pub use transition::{AppId, Record, Transition};

//! Client-side orchestration of a Bitcoin vaulting protocol: the vault status
//! model, the collection of signatures over chained transactions, and the
//! state machines that decide which request goes to the wallet daemon next.

pub mod app;
pub mod chain;
pub mod command;
pub mod error;
pub mod installer;
pub mod model;
pub mod psbt;
pub mod sign;
pub mod spend;
pub mod state;
pub mod vault;

//! Building, signing and sequencing the transactions that mint fungible
//! tokens, create a token mint and attach metadata to it.
pub mod address;
pub mod chain;
pub mod orchestrator;
pub mod plan;
pub mod session;

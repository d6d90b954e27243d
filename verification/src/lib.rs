//! Decision logic of a blockchain database that keeps its authoritative data in append-only tapes
//! and its derived data in an LSM key-value store.

pub mod activation;
pub mod closing;
pub mod consistency;
pub mod encoding;
pub mod fill;
pub mod laws;
pub mod layout;
pub mod opening;
pub mod operation;
pub mod outside;
pub mod pruning;
pub mod reading;
pub mod rebuild;
pub mod replay;
pub mod request;
pub mod state;
pub mod tips;

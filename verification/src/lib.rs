//! Sweep orchestration for a single-seed wallet drain: candidate account
//! planning, balance filtering, fee resolution, drain-transaction planning,
//! and the per-wallet stage machine. Network I/O, descriptor compilation and
//! signing are delegated to collaborators; the decisions around them are
//! verified here.

pub mod config;
pub mod errors;
pub mod network;
pub mod path;
pub mod catalog;
pub mod bip39;
pub mod address;
pub mod fee;
pub mod wallet;
pub mod sync;
pub mod sweep;
pub mod pipeline;

//! A token-sale (ICO) state machine: sale configuration, an investor
//! whitelist for the seed round, per-purchase accounting, and settlement of
//! purchased tokens after the sale.
//!
//! The library holds the decision and accounting logic only. Moving real
//! funds, reading the clock and persisting accounts are the host's work: a
//! caller hands in the current time and the relevant records, and performs
//! the payment or token transfer that a successful operation returns.

pub mod errors;
pub mod purchase;
pub mod sale;
pub mod state;

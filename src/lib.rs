//! A swap and liquidity-contribution program for a two-token ecosystem: it
//! splits incoming amounts between the user, the liquidity pool and a reward
//! cashback, tracks each user's contribution in a ledger at a derived address,
//! and pays a time-gated weekly reward on it.
pub mod address;
pub mod bytes;
pub mod contribution;
pub mod distribution;
pub mod error;
pub mod instruction;
pub mod math;
pub mod processor;
pub mod state;

//! Settlement builder for vault-deposit orders in a batch auction.
//!
//! Orders whose buy asset is a recognized vault-share token are filtered out
//! of a batch, a conversion rate from live vault state turns each sell amount
//! into the obtainable share amount, and every accepted order contributes two
//! on-chain calls (an asset approval and a vault deposit) plus its executed
//! amounts to the resulting settlement.

pub mod address;
pub mod amount;
pub mod classify;
pub mod encode;
pub mod model;
pub mod rate;
pub mod settle;

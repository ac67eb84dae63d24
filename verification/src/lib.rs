//! Escrow-style trade settlement for a marketplace of uniquely
//! identified digital items.
//!
//! A buyer deposits funds for an item, the recorded seller later
//! claims them, and an in-memory ledger of pending trades mediates
//! between the two legs. The asynchronous value-transfer ledger, the
//! catalog that resolves an item to its owner, and the identity
//! resolver are external collaborators: this crate makes the
//! decisions and hands out transfer plans as plain values.

pub mod account;
pub mod settle;
pub mod trade;

//! Hash- and time-locked escrow for two-ledger atomic swaps.
//!
//! A maker locks an asset on the source side, a resolver locks the matching
//! asset on the destination side, and one secret, whose digest both orders
//! carry, releases both. After the deadline each side refunds its depositor.
//!
//! `source` and `destination` hold the three operations of each side, on
//! the accounts of one order as plain values; `ledger` keeps the orders of
//! a side by identifier; `policy` holds the hashlock, the timelock and the
//! release of a holding account; `authority` derives the key-less
//! controller of an order; `laws` states what holds of all of them.

pub mod accounts;
pub mod authority;
pub mod destination;
pub mod errors;
pub mod events;
pub mod laws;
pub mod ledger;
pub mod policy;
pub mod source;
pub mod state;

//! The rules of a fiat bridge on a ledger.
//!
//! A fiat bridge takes deposits of one token against numbered receipts, each of
//! which carries a payment reference, and pays tokens out: at once, or by
//! withdrawal requests that are locked for a number of ledgers. An
//! administrator sets the limit for one deposit and the lock period, pauses and
//! unpauses the bridge, and can hand the administration over.
//!
//! [`bridge::FiatBridge`] is the bridge; [`model`] says what it is and what its
//! calls do, [`effects`] which answers and changes that comes to, and [`laws`]
//! what holds across calls. The library keeps the books and decides. What only a
//! ledger can do, such as moving tokens or confirming authorizations, comes in
//! and goes out as plain values: see [`types::Invocation`], [`types::Transfer`]
//! and [`types::Event`].

pub mod address;
pub mod bridge;
pub mod effects;
pub mod laws;
pub mod model;
pub mod reference;
pub mod types;

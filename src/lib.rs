//! A bridge that wraps one fungible asset into a 1:1-backed asset of a second
//! token standard and back. Deposits sit in an escrow held by a keyless
//! authority derived from the original asset; that authority alone mints the
//! wrapped asset, so the wrapped supply always equals what the escrow holds.

pub mod address;
pub mod bridge;
pub mod ledger;
pub mod lemmas;

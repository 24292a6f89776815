//! Settlement engine for stablecoin purchases.
//!
//! A payment is checked against the configuration, charged a platform fee, credited with
//! an affiliate commission, and made final by an order record that can be written once.
//! The engine decides and keeps the records; moving the funds, funding the storage and
//! telling the world are left to the host, which is handed what to do as plain values.
//!
//! - `address`, `derivation`: identities, and the storage addresses derived for them.
//! - `state`, `layout`, `store`: the three records, their bytes, and where they live.
//! - `fees`: the arithmetic of a settlement.
//! - `settlement`, `admin`: the operations.
//! - `token`: transfers, and the instruction that carries one to the token program.
//! - `instruction`, `wire`, `processor`: the front end that takes instructions as bytes
//!   and accounts by position.
//! - `error`: what can go wrong.
//! - `laws`: what holds whatever is asked.

pub mod address;
pub mod admin;
pub mod derivation;
pub mod error;
pub mod fees;
pub mod instruction;
pub mod laws;
pub mod layout;
pub mod processor;
pub mod settlement;
pub mod state;
pub mod store;
pub mod token;
pub mod wire;

//! Token collections with proportional reward distributions.
//!
//! An authority opens a collection of one token, capped at the token's supply,
//! and registers distributions of other tokens to it. A user commits tokens to
//! the collection, receives as many replacement tokens, and is paid from every
//! registered distribution a share proportional to the committed fraction of the
//! cap. Every instruction is decided here, from plain values, into the token
//! calls to make and the account states to store.

pub mod accounts;
pub mod claim;
pub mod guarantees;
pub mod instructions;
pub mod key;
pub mod laws;
pub mod share;
pub mod state;
pub mod token;

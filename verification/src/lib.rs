//! A routing layer for token exchanges against a fixed-price pool.
//!
//! The router keeps an owner, a registry of pair configurations, a ledger of
//! swapped volume and a whitelist of accounts. Every operation is a function
//! from the stored state and a request to the next state and a response that
//! lists the instructions the host has to carry out. The pool's pricing
//! engine is part of the crate, so that a quote and the later execution can be
//! related to each other.

pub mod contract;
pub mod error;
pub mod handler;
pub mod helper;
pub mod laws;
pub mod math;
pub mod mock_swap_pair;
pub mod msg;
pub mod querier;
pub mod response;
pub mod state;
pub mod table;


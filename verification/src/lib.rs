//! A quorum-gated multi-signature governance engine.
//!
//! Board members and proposers submit actions, board members sign them, and
//! an action takes effect only once the active vote policy is satisfied.

pub mod address;
pub mod address_factory;
pub mod amount;
pub mod address_set;
pub mod error;
pub mod token;
pub mod call_value;
pub mod action;
pub mod membership;
pub mod voting;
pub mod ledger;
pub mod managed_multi_args_vec;
pub mod executor;
pub mod engine;
pub mod laws;

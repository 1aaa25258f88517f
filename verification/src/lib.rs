//! Escrowed fund distribution: deposits of one accepted asset, released
//! against the owner's call or a detached owner signature, and split between
//! a burn sink, the owner and the developer.
//!
//! The library holds the contract's decisions as functions on plain values.
//! Loading and saving the state, and carrying out the transfers that a
//! response orders, is the host's part.

pub mod address;
pub mod authorizer;
pub mod contract;
pub mod distribution;
pub mod error;
pub mod msg;
pub mod payload;
pub mod primitives;
pub mod signature;
pub mod state;

pub use crate::error::ContractError;

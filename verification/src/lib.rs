//! Access control for a protected-resource platform.
//!
//! A caller is admitted either because the allow-list exempts it or because
//! it presents a zero-knowledge proof whose nullifier has not been seen
//! before. This crate holds
//!
//! - the allow-list and its policy ([`whitelist`]), over a store that the
//!   caller hands in ([`storage`]);
//! - the derivation of the nullifier and the construction of the canonical
//!   authorization request ([`helpers`]);
//! - the course of one authorization attempt, as states and the events
//!   that move them ([`gate`]).
//!
//! It verifies no proof, keeps no registry of nullifiers and reads no
//! clock: those are the business of whoever drives an attempt. The one
//! thing it takes from the Soroban host, the hash, stands in [`host`].

pub mod address;
pub mod error;
pub mod gate;
pub mod helpers;
pub mod host;
pub mod points;
pub mod request;
pub mod storage;
pub mod whitelist;

pub use request::{AccessRequest, Proof};

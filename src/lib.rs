//! Decisions of two cooperating on-chain actors, with their contracts proved:
//! a factory that deploys an actor and binds its address only when the
//! deployment's callback reports success, and a custodian that releases its
//! whole balance to its admin or a destination the admin names.
//!
//! Storage, address validation, balance queries and wire encoding belong to
//! the host; the functions here take their results as plain values.
use vstd::prelude::*;

pub mod auth;
pub mod callback;
pub mod custodian;
pub mod error;
pub mod factory;
pub mod laws;
pub mod response;

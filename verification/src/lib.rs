//! A single-owner, account-indexed record store.
//!
//! Each account owns at most one profile ([`user::User`]) and, once
//! registered, one append-ordered list of work items ([`task::Task`]).
//! Every operation returns a uniform response envelope
//! ([`response::BaseResponse`] / [`response::DataResponse`]) so that callers
//! can distinguish success, not-found, duplicate and internal-error outcomes
//! without exceptions.
//!
//! The host environment resolves the calling account and hands it to every
//! operation as an opaque, comparable [`AccountId`]; transport, encoding and
//! persistence below the key-value abstraction stay outside this crate.

use vstd::prelude::*;

pub mod contract;
pub mod laws;
pub mod response;
pub mod task;
pub mod user;

pub use contract::TodoContract;

verus! {

/// Opaque, unforgeable key identifying the caller of an operation.
/// The host environment supplies it; the store only compares it.
pub type AccountId = u64;

} // verus!

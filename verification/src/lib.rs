//! Core of a payment-orchestration platform: the generic operation pipeline
//! that drives every payment/refund state transition, and the dual-write
//! storage layer that backs it with either a strict relational path or a
//! cache-first path replicated through a sharded change stream.
//!
//! `status` holds the entity state machines; `entities` the records, drafts
//! and named changesets; `relational` the strict backend; `kv` the cached
//! backend with its change stream; `stream` the drainer that replays the
//! stream into the relational store; `storage` the scheme-dispatching
//! interface the pipeline consumes; `pipeline` and `verify_flow` the
//! four-stage flow drivers; `ids` identifier generation and key formats;
//! `refund_api`, `user_roles` and `scheduler` the API-facing data model.

pub mod entities;
pub mod ids;
pub mod errors;
pub mod keys;
pub mod kv;
pub mod pipeline;
pub mod refund_api;
pub mod relational;
pub mod scheduler;
pub mod status;
pub mod storage;
pub mod stream;
pub mod user_roles;
pub mod verify_flow;

use vstd::prelude::*;

verus! {

/// Number of characters in a generated identifier token.
pub const TOKEN_LENGTH: usize = 32;

} // verus!

//! Verified core of a per-identity metadata service.
//!
//! The library models a small key-value metadata store keyed by principal
//! identities.  End-user writes are gated by a per-write signature check,
//! privileged bulk deletion by a bearer-token check.  The verified code
//! covers the decision logic: principal handling, the stored-record codec,
//! both authentication checks, the storage model with its laws, bulk-delete
//! planning and failure aggregation, the error taxonomy with the per-endpoint
//! mapping tables, and the supervisor state machine that coordinates the two
//! network front ends.  Network and backend I/O stay outside the library and
//! hand plain values in and out.

pub mod error;
pub mod principal;
pub mod types;
pub mod codec;
pub mod client;
pub mod auth;
pub mod service;
pub mod bulk;
pub mod supervisor;
pub mod tokengen;

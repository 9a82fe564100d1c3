//! Verified core of a small web service that tracks the time to live (TTL)
//! of Soroban contract instances through the Mercury indexer.
//!
//! The service itself (HTTP routes, GraphQL and RPC round trips, the
//! database) lives in `app/`; this crate holds the decisions that service
//! makes on the data it receives, and the encodings it computes.

pub mod error;
pub mod text;
pub mod xdr;
pub mod events;
pub mod expiration;
pub mod postgres;
pub mod publish_events;
pub mod response;
pub mod settings;
pub mod subscribe_ledger_expiration;
pub mod update_token;

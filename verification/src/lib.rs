//! Client-side protocol logic for a multi-relay, append-only event log
//! carrying prediction-market records.
//!
//! The crate covers the pure protocol layer: hex record identifiers, query
//! filter composition, interpretation of raw log entries into domain results,
//! the capability-typed client (query-only versus publish-capable), and the
//! obligation-resolution algorithm that reconciles pledge and attestation
//! records. Network transport and local storage live outside the library and
//! hand it plain values.

pub mod hex;
pub mod information;
pub mod adapters;
pub mod client;
pub mod commands;
pub mod filter;
pub mod obligations;
pub mod payout;
pub mod query;


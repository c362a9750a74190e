//! Verified core of a beacon-chain epoch indexer.
//!
//! The library walks an upstream chain epoch by epoch, consolidates raw
//! responses into typed records, plans their persistence, and builds a
//! paginated, sortable snapshot of the same data for read-only consumers.
//! Network and file I/O live outside the library; everything here is a
//! function from plain values to plain values, verified by Verus.

pub mod attestation;
pub mod codec;
pub mod consolidated_block;
pub mod consolidated_epoch;
pub mod consolidator;
pub mod convert;
pub mod db_models;
pub mod duty_cache;
pub mod errors;
pub mod node_models;
pub mod pagination;
pub mod retriever;
pub mod snapshot;
pub mod text;
pub mod validator;
pub mod validators_context;
pub mod views;

//! Persistent storage backend of an embedded Starknet-style chain client.
//!
//! The client's own blocks are wrapped inside the envelope blocks of an outer
//! consensus layer, so callers that identify a block by the chain's own hash
//! need a dedicated index to find the enclosing envelope block. This crate
//! keeps that index, together with chain metadata, data-availability facts,
//! messaging cursors, fee bookkeeping, a compiled-class cache and the raw
//! key/value namespaces that back an external Merkle-trie implementation.
//!
//! All stores multiplex a fixed set of logical columns onto one shared
//! key/value engine. The engine's contents are modelled here; reading and
//! writing a physical disk engine is left to the embedding application.

pub mod backend;
pub mod bonsai_db;
pub mod columns;
pub mod da_db;
pub mod l1_handler_tx_fee;
pub mod laws;
pub mod mapping_db;
pub mod messaging_db;
pub mod meta_db;
pub mod sierra_classes_db;
pub mod transactions;
pub mod engine;
pub mod error;
pub mod genesis;
pub mod header;
pub mod static_keys;
pub mod types;

//! Read access to blockchain state over several backing stores, and point-in-time
//! snapshots of the slots that one L1 batch accesses.
//!
//! - `ledger`: the relational ledger of sealed batches and its read-only queries.
//! - `postgres`, `rocksdb`, `rocksdb_with_memory`, `snapshot`, `in_memory`: the backends,
//!   each with the same four reads.
//! - `storage_factory`: one selector over the backends, and the constructors that produce a
//!   backend for a batch, among them the snapshot builder.
//! - `signing_layer`, `tx_sink`, `kms`: the decisions of the node's signing and mempool
//!   wiring, and values derived from results of the key-management service.

pub mod types;
pub mod table;
pub mod ledger;
pub mod snapshot;
pub mod postgres;
pub mod rocksdb;
pub mod rocksdb_with_memory;
pub mod in_memory;
pub mod storage_factory;
pub mod kms;
pub mod signing_layer;
pub mod tx_sink;

//! A lifecycle- and concurrency-safety layer over an embedded, memory-mapped,
//! transactional key-value storage engine.
//!
//! The engine itself (B-tree storage, snapshotting, memory-map management) is
//! a collaborator outside this crate. What is modelled and verified here is
//! the layer immediately above it: environment configuration and opening,
//! named-database handle resolution and creation, and read/write transaction
//! issuance with single-writer mutual exclusion and leak-free teardown.

pub mod database;
pub mod environment;
pub mod error;
pub mod flags;
pub mod laws;
pub mod store;

pub use database::Database;
pub use environment::Environment;
pub use environment::EnvironmentBuilder;
pub use environment::Transaction;
pub use environment::TransactionMode;
pub use error::Error;
pub use flags::DatabaseFlags;
pub use flags::EnvironmentFlags;
pub use store::Store;

//! Replication of entity collections from a source store to a destination
//! store, with optional masking of each record on the way.
//!
//! The crate holds the decisions of the replication engine: how an entity's
//! records are cut into batches, how batch sizes adapt to record sizes, which
//! entities may be cleared on the destination, how index descriptions are
//! converted to and from the native form of the store, and the state machines
//! that drive producers, batch workers and the manager.
pub mod database;
pub mod error;
pub mod mask;
pub mod replication;
pub mod text;

pub use database::pagination::PaginationOptions;
pub use error::{TuxedoError, TuxedoResult};
pub use mask::Mask;
pub use replication::manager::ReplicationManager;
pub use replication::manager_builder::ReplicationManagerBuilder;
pub use replication::processor::{ProcessorConfigBuilder, ReplicationConfigBuilder};
pub use replication::types::ReplicationStrategy;

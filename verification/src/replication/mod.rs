//! The replication engine: sizing, batch planning and the state machines.
pub mod batching;
pub mod completeness;
pub mod consumer;
pub mod manager;
pub mod manager_builder;
pub mod processor;
pub mod task;
pub mod types;

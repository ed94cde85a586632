//! Loading a partitioned Arrow IPC table into one in-memory table.

pub mod assemble;
pub mod columnar;
pub mod engine;
pub mod error;
pub mod laws;
pub mod loader;
pub mod partition;
pub mod reconcile;

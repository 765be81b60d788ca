//! Write-buffering core of a person registry: validated creations are queued
//! in memory, flushed in deduplicated batches, and read back cache-aside.

pub mod text;
pub mod model;
pub mod queue;
pub mod flush;
pub mod dedup_laws;
pub mod validate;
pub mod create;
pub mod read;
pub mod cycle;
pub mod system;
pub mod store_laws;
pub mod search;

//! Change-data-capture observation layer: a registry of subscribed regions,
//! hooks that turn applied commands and leadership / topology changes into
//! ordered tasks, and the memory quota that bounds buffered capture data.
//! Beside it stand the read statistics, compaction options and region-error
//! tags of the storage layer it serves.

pub mod compact;
pub mod errors;
pub mod event;
pub mod memory;
pub mod observer;
pub mod registry;
pub mod scheduler;
pub mod stats;

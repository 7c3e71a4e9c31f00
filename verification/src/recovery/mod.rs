//! Crash-recovery file format: checkpoints, a delta journal and their replay.

pub mod codec;
pub mod delta;
pub mod files;
pub mod record;
pub mod store;
pub mod laws;
pub mod worker;

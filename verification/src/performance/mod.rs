//! Performance sampling: the optional runtime tracker and the overlay monitor.

pub mod benchmark;
pub mod export;
pub mod monitor;
pub mod sort;
pub mod tracker;

//! Verified core of the Steady Ink screen annotation tool.

pub mod app;
pub mod autostart;
pub mod error;
pub mod ink;
pub mod input;
pub mod logging;
pub mod performance;
pub mod recovery;
pub mod text;

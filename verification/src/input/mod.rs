//! Pointer input: the canvas router, the native pen's range, contact and
//! time-source tracking, and the native hook's message classification,
//! history ordering, touch frame ordering and palm-size preset.

pub mod palm_session;
pub mod pen_tracker;
pub mod router;
pub mod windows_pointer;

//! Application-level decisions: the top-level modes, the slideshow input toggle,
//! toolbar commands and the idle toolbar's window drag.

pub mod controller;
pub mod idle_touch_drag;
pub mod runtime;
pub mod state;

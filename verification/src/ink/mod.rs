//! Ink data that the library keeps exact: colors, tool steps, operation
//! identifiers, page positions, surface sizes and the pool of idle surfaces.

pub mod active_stroke;
pub mod document;
pub mod model;
pub mod page_store;
pub mod surface;
pub mod surface_pool;

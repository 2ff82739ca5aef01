//! The types that the bus layer exchanges with the portal handlers.

pub mod screenshot;

//! Canvas identity, event routing and shape composition for drawing on a host
//! canvas through a small set of host primitives.

pub mod canvas;
pub mod input;
pub mod registry;
pub mod host;

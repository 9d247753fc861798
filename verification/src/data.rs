//! The decoded device topology.

pub mod color;
pub mod controller;
pub mod controller_codec;
pub mod effect;
pub mod flags;
pub mod kinds;
pub mod led;
pub mod matrix;
pub mod mode;
pub mod plugin;
pub mod segment;
pub mod zone;

//! The wire format: cursors over messages and the codec of each value.

pub mod message;
pub mod sequence;
pub mod text;
pub mod version;
pub mod wire;

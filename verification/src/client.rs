//! The snapshot of a controller and what is built on it: views of its zones,
//! segments, LEDs and modes, and the validated builders of requests.

pub mod command;
pub mod controller;
pub mod led;
pub mod request;
pub mod segment;
pub mod zone;
pub mod mode;
pub mod plugin;

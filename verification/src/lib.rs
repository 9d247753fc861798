//! Client-side model of the OpenRGB SDK protocol: the wire codec, the decoded
//! device topology, and the validated command and mode builders on top of it.
//!
//! Nothing here touches a connection. Messages are decoded from bytes that a
//! caller received and requests are built as values that a caller sends.

pub mod client;
pub mod data;
pub mod error;
pub mod protocol;

pub use client::command::Command;
pub use client::controller::Controller;
pub use client::led::Led;
pub use client::mode::{ControllerMode, ControllerModeBuilder, ControllerModeKind};
pub use client::plugin::OpenRgbPlugin;
pub use client::request::Request;
pub use client::segment::Segment;
pub use client::zone::Zone;
pub use data::color::Color;
pub use data::controller::ControllerData;
pub use data::flags::{ControllerFlags, ModeFlags};
pub use data::effect::{EffectsPluginPacket, PluginEffect};
pub use data::kinds::{ColorMode, DeviceType, Direction, ZoneType};
pub use data::led::LedData;
pub use data::mode::ModeData;
pub use data::plugin::PluginData;
pub use data::segment::SegmentData;
pub use data::zone::ZoneData;
pub use error::{CommandError, OpenRgbError, OpenRgbResult, Parameter};
pub use protocol::message::{ReceivedMessage, WriteMessage};
pub use protocol::version::ProtocolOption;
pub use protocol::wire::{DeserFromBuf, SerToBuf};

//! The enumerations of the protocol. Each is transmitted as a 32-bit code;
//! a code without a name of its own is kept as it came.

use vstd::prelude::*;

verus! {

/// The direction of a mode's effect.
#[derive(Debug, Clone, Copy, PartialEq, Eq, Hash, Structural)]
pub enum Direction {
    Left,
    Right,
    Up,
    Down,
    Horizontal,
    Vertical,
    /// A code that names no direction.
    Unknown(u32),
}

impl Direction {
    /// The direction that `code` names.
    pub open spec fn spec_from_code(code: u32) -> Direction {
        if code == 0 {
            Direction::Left
        } else if code == 1 {
            Direction::Right
        } else if code == 2 {
            Direction::Up
        } else if code == 3 {
            Direction::Down
        } else if code == 4 {
            Direction::Horizontal
        } else if code == 5 {
            Direction::Vertical
        } else {
            Direction::Unknown(code)
        }
    }

    /// The code that names this direction.
    pub open spec fn spec_code(self) -> u32 {
        match self {
            Direction::Left => 0,
            Direction::Right => 1,
            Direction::Up => 2,
            Direction::Down => 3,
            Direction::Horizontal => 4,
            Direction::Vertical => 5,
            Direction::Unknown(code) => code,
        }
    }

    /// The direction that `code` names.
    #[verifier::when_used_as_spec(spec_from_code)]
    pub fn from_code(code: u32) -> (direction: Direction)
        ensures
            direction == Direction::spec_from_code(code),
    {
        if code == 0 {
            Direction::Left
        } else if code == 1 {
            Direction::Right
        } else if code == 2 {
            Direction::Up
        } else if code == 3 {
            Direction::Down
        } else if code == 4 {
            Direction::Horizontal
        } else if code == 5 {
            Direction::Vertical
        } else {
            Direction::Unknown(code)
        }
    }

    /// The code that names this direction.
    #[verifier::when_used_as_spec(spec_code)]
    pub fn code(self) -> (code: u32)
        ensures
            code == self.spec_code(),
    {
        match self {
            Direction::Left => 0,
            Direction::Right => 1,
            Direction::Up => 2,
            Direction::Down => 3,
            Direction::Horizontal => 4,
            Direction::Vertical => 5,
            Direction::Unknown(code) => code,
        }
    }
}

/// How a mode takes its colors.
#[derive(Debug, Clone, Copy, PartialEq, Eq, Hash, Structural)]
pub enum ColorMode {
    /// The mode has no colors.
    NoColors,
    /// Each LED has a color of its own.
    PerLed,
    /// The mode has a list of colors of its own.
    ModeSpecific,
    /// The colors are chosen at random.
    Random,
    /// A code that names no color mode.
    Unknown(u32),
}

impl ColorMode {
    /// The color mode that `code` names.
    pub open spec fn spec_from_code(code: u32) -> ColorMode {
        if code == 0 {
            ColorMode::NoColors
        } else if code == 1 {
            ColorMode::PerLed
        } else if code == 2 {
            ColorMode::ModeSpecific
        } else if code == 3 {
            ColorMode::Random
        } else {
            ColorMode::Unknown(code)
        }
    }

    /// The code that names this color mode.
    pub open spec fn spec_code(self) -> u32 {
        match self {
            ColorMode::NoColors => 0,
            ColorMode::PerLed => 1,
            ColorMode::ModeSpecific => 2,
            ColorMode::Random => 3,
            ColorMode::Unknown(code) => code,
        }
    }

    /// The color mode that `code` names.
    #[verifier::when_used_as_spec(spec_from_code)]
    pub fn from_code(code: u32) -> (mode: ColorMode)
        ensures
            mode == ColorMode::spec_from_code(code),
    {
        if code == 0 {
            ColorMode::NoColors
        } else if code == 1 {
            ColorMode::PerLed
        } else if code == 2 {
            ColorMode::ModeSpecific
        } else if code == 3 {
            ColorMode::Random
        } else {
            ColorMode::Unknown(code)
        }
    }

    /// The code that names this color mode.
    #[verifier::when_used_as_spec(spec_code)]
    pub fn code(self) -> (code: u32)
        ensures
            code == self.spec_code(),
    {
        match self {
            ColorMode::NoColors => 0,
            ColorMode::PerLed => 1,
            ColorMode::ModeSpecific => 2,
            ColorMode::Random => 3,
            ColorMode::Unknown(code) => code,
        }
    }
}

/// The layout of a zone.
#[derive(Debug, Clone, Copy, PartialEq, Eq, Hash, Structural)]
pub enum ZoneType {
    /// A single LED, or LEDs that are lit as one.
    Single,
    /// LEDs in a row.
    Linear,
    /// LEDs in a two-dimensional arrangement.
    Matrix,
    /// A code that names no layout.
    Unknown(u32),
}

impl ZoneType {
    /// The layout that `code` names.
    pub open spec fn spec_from_code(code: u32) -> ZoneType {
        if code == 0 {
            ZoneType::Single
        } else if code == 1 {
            ZoneType::Linear
        } else if code == 2 {
            ZoneType::Matrix
        } else {
            ZoneType::Unknown(code)
        }
    }

    /// The code that names this layout.
    pub open spec fn spec_code(self) -> u32 {
        match self {
            ZoneType::Single => 0,
            ZoneType::Linear => 1,
            ZoneType::Matrix => 2,
            ZoneType::Unknown(code) => code,
        }
    }

    /// The layout that `code` names.
    #[verifier::when_used_as_spec(spec_from_code)]
    pub fn from_code(code: u32) -> (zone_type: ZoneType)
        ensures
            zone_type == ZoneType::spec_from_code(code),
    {
        if code == 0 {
            ZoneType::Single
        } else if code == 1 {
            ZoneType::Linear
        } else if code == 2 {
            ZoneType::Matrix
        } else {
            ZoneType::Unknown(code)
        }
    }

    /// The code that names this layout.
    #[verifier::when_used_as_spec(spec_code)]
    pub fn code(self) -> (code: u32)
        ensures
            code == self.spec_code(),
    {
        match self {
            ZoneType::Single => 0,
            ZoneType::Linear => 1,
            ZoneType::Matrix => 2,
            ZoneType::Unknown(code) => code,
        }
    }
}

/// The kind of device that a controller drives.
#[derive(Debug, Clone, Copy, PartialEq, Eq, Hash, Structural)]
pub enum DeviceType {
    Motherboard,
    DRam,
    Gpu,
    Cooler,
    LedStrip,
    Keyboard,
    Mouse,
    MouseMat,
    Headset,
    HeadsetStand,
    Gamepad,
    Light,
    Speaker,
    Virtual,
    Storage,
    Case,
    Microphone,
    Accessory,
    Keypad,
    Laptop,
    Monitor,
    /// A code that names no kind of device.
    Unknown(u32),
}

impl DeviceType {
    /// The kind of device that `code` names.
    pub open spec fn spec_from_code(code: u32) -> DeviceType {
        if code == 0 {
            DeviceType::Motherboard
        } else if code == 1 {
            DeviceType::DRam
        } else if code == 2 {
            DeviceType::Gpu
        } else if code == 3 {
            DeviceType::Cooler
        } else if code == 4 {
            DeviceType::LedStrip
        } else if code == 5 {
            DeviceType::Keyboard
        } else if code == 6 {
            DeviceType::Mouse
        } else if code == 7 {
            DeviceType::MouseMat
        } else if code == 8 {
            DeviceType::Headset
        } else if code == 9 {
            DeviceType::HeadsetStand
        } else if code == 10 {
            DeviceType::Gamepad
        } else if code == 11 {
            DeviceType::Light
        } else if code == 12 {
            DeviceType::Speaker
        } else if code == 13 {
            DeviceType::Virtual
        } else if code == 14 {
            DeviceType::Storage
        } else if code == 15 {
            DeviceType::Case
        } else if code == 16 {
            DeviceType::Microphone
        } else if code == 17 {
            DeviceType::Accessory
        } else if code == 18 {
            DeviceType::Keypad
        } else if code == 19 {
            DeviceType::Laptop
        } else if code == 20 {
            DeviceType::Monitor
        } else {
            DeviceType::Unknown(code)
        }
    }

    /// The code that names this kind of device.
    pub open spec fn spec_code(self) -> u32 {
        match self {
            DeviceType::Motherboard => 0,
            DeviceType::DRam => 1,
            DeviceType::Gpu => 2,
            DeviceType::Cooler => 3,
            DeviceType::LedStrip => 4,
            DeviceType::Keyboard => 5,
            DeviceType::Mouse => 6,
            DeviceType::MouseMat => 7,
            DeviceType::Headset => 8,
            DeviceType::HeadsetStand => 9,
            DeviceType::Gamepad => 10,
            DeviceType::Light => 11,
            DeviceType::Speaker => 12,
            DeviceType::Virtual => 13,
            DeviceType::Storage => 14,
            DeviceType::Case => 15,
            DeviceType::Microphone => 16,
            DeviceType::Accessory => 17,
            DeviceType::Keypad => 18,
            DeviceType::Laptop => 19,
            DeviceType::Monitor => 20,
            DeviceType::Unknown(code) => code,
        }
    }

    /// The kind of device that `code` names.
    #[verifier::when_used_as_spec(spec_from_code)]
    pub fn from_code(code: u32) -> (device_type: DeviceType)
        ensures
            device_type == DeviceType::spec_from_code(code),
    {
        if code == 0 {
            DeviceType::Motherboard
        } else if code == 1 {
            DeviceType::DRam
        } else if code == 2 {
            DeviceType::Gpu
        } else if code == 3 {
            DeviceType::Cooler
        } else if code == 4 {
            DeviceType::LedStrip
        } else if code == 5 {
            DeviceType::Keyboard
        } else if code == 6 {
            DeviceType::Mouse
        } else if code == 7 {
            DeviceType::MouseMat
        } else if code == 8 {
            DeviceType::Headset
        } else if code == 9 {
            DeviceType::HeadsetStand
        } else if code == 10 {
            DeviceType::Gamepad
        } else if code == 11 {
            DeviceType::Light
        } else if code == 12 {
            DeviceType::Speaker
        } else if code == 13 {
            DeviceType::Virtual
        } else if code == 14 {
            DeviceType::Storage
        } else if code == 15 {
            DeviceType::Case
        } else if code == 16 {
            DeviceType::Microphone
        } else if code == 17 {
            DeviceType::Accessory
        } else if code == 18 {
            DeviceType::Keypad
        } else if code == 19 {
            DeviceType::Laptop
        } else if code == 20 {
            DeviceType::Monitor
        } else {
            DeviceType::Unknown(code)
        }
    }

    /// The code that names this kind of device.
    #[verifier::when_used_as_spec(spec_code)]
    pub fn code(self) -> (code: u32)
        ensures
            code == self.spec_code(),
    {
        match self {
            DeviceType::Motherboard => 0,
            DeviceType::DRam => 1,
            DeviceType::Gpu => 2,
            DeviceType::Cooler => 3,
            DeviceType::LedStrip => 4,
            DeviceType::Keyboard => 5,
            DeviceType::Mouse => 6,
            DeviceType::MouseMat => 7,
            DeviceType::Headset => 8,
            DeviceType::HeadsetStand => 9,
            DeviceType::Gamepad => 10,
            DeviceType::Light => 11,
            DeviceType::Speaker => 12,
            DeviceType::Virtual => 13,
            DeviceType::Storage => 14,
            DeviceType::Case => 15,
            DeviceType::Microphone => 16,
            DeviceType::Accessory => 17,
            DeviceType::Keypad => 18,
            DeviceType::Laptop => 19,
            DeviceType::Monitor => 20,
            DeviceType::Unknown(code) => code,
        }
    }
}

/// No code is lost when it is given its name: the name's code is the code.
pub proof fn lemma_codes_are_kept(code: u32)
    ensures
        Direction::spec_from_code(code).spec_code() == code,
        ColorMode::spec_from_code(code).spec_code() == code,
        ZoneType::spec_from_code(code).spec_code() == code,
        DeviceType::spec_from_code(code).spec_code() == code,
{
}

} // verus!

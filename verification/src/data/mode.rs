//! The record of a mode: a named operating behaviour of a controller, with the
//! parameters that its capability flags allow.

use vstd::prelude::*;
use crate::data::color::Color;
use crate::data::flags::ModeFlags;
use crate::data::kinds::{ColorMode, Direction};
use crate::error::{CommandError, OpenRgbError};
use crate::protocol::message::{ReceivedMessage, WriteMessage};
use crate::protocol::sequence::spec_models;
use crate::protocol::version::ProtocolOption;
use crate::protocol::wire::{lemma_concat, lemma_field, lemma_step, DeserFromBuf, SerToBuf};

verus! {

/// A mode of a controller.
#[derive(Debug, Eq, PartialEq)]
pub struct ModeData {
    name: String,
    value: i32,
    flags: ModeFlags,
    speed_min: Option<u32>,
    speed_max: Option<u32>,
    brightness_min: Option<u32>,
    brightness_max: Option<u32>,
    colors_min: u32,
    colors_max: u32,
    speed: Option<u32>,
    brightness: Option<u32>,
    direction: Option<Direction>,
    color_mode: ColorMode,
    colors: Vec<Color>,
    index: u32,
}

/// What a `ModeData` stands for.
pub ghost struct ModeModel {
    pub name: Seq<char>,
    /// The device-internal number of the mode.
    pub value: i32,
    pub flags: ModeFlags,
    pub speed_min: Option<u32>,
    pub speed_max: Option<u32>,
    pub brightness_min: Option<u32>,
    pub brightness_max: Option<u32>,
    pub colors_min: u32,
    pub colors_max: u32,
    pub speed: Option<u32>,
    pub brightness: Option<u32>,
    pub direction: Option<Direction>,
    pub color_mode: ColorMode,
    pub colors: Seq<Color>,
    /// The position of the mode in its controller's list. It is not
    /// transmitted.
    pub index: u32,
}

/// The fields of a mode as they stand on the wire, in their order. The two
/// brightness bounds and the brightness exist from protocol version 3 on.
pub ghost struct ModeWire {
    pub name: Seq<char>,
    pub value: i32,
    pub flags: u32,
    pub speed_min: u32,
    pub speed_max: u32,
    pub brightness_min: Option<u32>,
    pub brightness_max: Option<u32>,
    pub colors_min: u32,
    pub colors_max: u32,
    pub speed: u32,
    pub brightness: Option<u32>,
    pub direction: u32,
    pub color_mode: u32,
    pub colors: Seq<Color>,
}

/// `value` where the capability is there, nothing where it is not.
pub open spec fn spec_gated(capable: bool, value: Option<u32>) -> Option<u32> {
    if capable {
        value
    } else {
        None
    }
}

/// The number transmitted for an optional parameter: 0 where there is none.
pub open spec fn spec_or_zero(value: Option<u32>) -> u32 {
    match value {
        Some(v) => v,
        None => 0,
    }
}

impl ModeWire {
    /// The mode that the transmitted fields describe: a parameter is present
    /// where its capability flag is set and the field was transmitted. The
    /// position is 0.
    pub open spec fn interpret(self) -> ModeModel {
        let flags = ModeFlags { bits: self.flags };
        ModeModel {
            name: self.name,
            value: self.value,
            flags,
            speed_min: spec_gated(flags.has_speed(), Some(self.speed_min)),
            speed_max: spec_gated(flags.has_speed(), Some(self.speed_max)),
            brightness_min: spec_gated(flags.has_brightness(), self.brightness_min),
            brightness_max: spec_gated(flags.has_brightness(), self.brightness_max),
            colors_min: self.colors_min,
            colors_max: self.colors_max,
            speed: spec_gated(flags.has_speed(), Some(self.speed)),
            brightness: spec_gated(flags.has_brightness(), self.brightness),
            direction: if flags.has_direction() {
                Some(Direction::spec_from_code(self.direction))
            } else {
                None
            },
            color_mode: ColorMode::spec_from_code(self.color_mode),
            colors: self.colors,
            index: 0,
        }
    }

    /// Whether the fields can be spelled at `protocol`, and are those that
    /// `protocol` transmits.
    pub open spec fn encodable(self, protocol: u32) -> bool {
        &&& String::encodable(self.name, protocol)
        &&& self.colors.len() <= 0xFFFF
        &&& self.brightness_min is Some <==> protocol >= 3
        &&& self.brightness_max is Some <==> protocol >= 3
        &&& self.brightness is Some <==> protocol >= 3
    }

    /// The bytes of the fields at `protocol`.
    pub open spec fn spec_serialize(self, protocol: u32) -> Seq<u8> {
        String::spec_serialize(self.name, protocol) + (i32::spec_serialize(self.value, protocol)
            + (u32::spec_serialize(self.flags, protocol) + (u32::spec_serialize(
            self.speed_min,
            protocol,
        ) + (u32::spec_serialize(self.speed_max, protocol) + (ProtocolOption::<
            3,
            u32,
        >::spec_serialize(self.brightness_min, protocol) + (ProtocolOption::<
            3,
            u32,
        >::spec_serialize(self.brightness_max, protocol) + (u32::spec_serialize(
            self.colors_min,
            protocol,
        ) + (u32::spec_serialize(self.colors_max, protocol) + (u32::spec_serialize(
            self.speed,
            protocol,
        ) + (ProtocolOption::<3, u32>::spec_serialize(self.brightness, protocol)
            + (u32::spec_serialize(self.direction, protocol) + (u32::spec_serialize(
            self.color_mode,
            protocol,
        ) + Vec::<Color>::spec_serialize(self.colors, protocol)))))))))))))
    }

    /// The fields spelled by a prefix of `bytes`, with the length of that
    /// prefix.
    pub open spec fn spec_deserialize(bytes: Seq<u8>, protocol: u32) -> Option<(ModeWire, int)> {
        let name = String::spec_deserialize(bytes, protocol);
        let b1 = bytes.skip((name->0).1);
        let value = i32::spec_deserialize(b1, protocol);
        let b2 = b1.skip((value->0).1);
        let flags = u32::spec_deserialize(b2, protocol);
        let b3 = b2.skip((flags->0).1);
        let speed_min = u32::spec_deserialize(b3, protocol);
        let b4 = b3.skip((speed_min->0).1);
        let speed_max = u32::spec_deserialize(b4, protocol);
        let b5 = b4.skip((speed_max->0).1);
        let brightness_min = ProtocolOption::<3, u32>::spec_deserialize(b5, protocol);
        let b6 = b5.skip((brightness_min->0).1);
        let brightness_max = ProtocolOption::<3, u32>::spec_deserialize(b6, protocol);
        let b7 = b6.skip((brightness_max->0).1);
        let colors_min = u32::spec_deserialize(b7, protocol);
        let b8 = b7.skip((colors_min->0).1);
        let colors_max = u32::spec_deserialize(b8, protocol);
        let b9 = b8.skip((colors_max->0).1);
        let speed = u32::spec_deserialize(b9, protocol);
        let b10 = b9.skip((speed->0).1);
        let brightness = ProtocolOption::<3, u32>::spec_deserialize(b10, protocol);
        let b11 = b10.skip((brightness->0).1);
        let direction = u32::spec_deserialize(b11, protocol);
        let b12 = b11.skip((direction->0).1);
        let color_mode = u32::spec_deserialize(b12, protocol);
        let b13 = b12.skip((color_mode->0).1);
        let colors = Vec::<Color>::spec_deserialize(b13, protocol);
        if name is Some && value is Some && flags is Some && speed_min is Some && speed_max is Some
            && brightness_min is Some && brightness_max is Some && colors_min is Some
            && colors_max is Some && speed is Some && brightness is Some && direction is Some
            && color_mode is Some && colors is Some {
            Some(
                (
                    ModeWire {
                        name: (name->0).0,
                        value: (value->0).0,
                        flags: (flags->0).0,
                        speed_min: (speed_min->0).0,
                        speed_max: (speed_max->0).0,
                        brightness_min: (brightness_min->0).0,
                        brightness_max: (brightness_max->0).0,
                        colors_min: (colors_min->0).0,
                        colors_max: (colors_max->0).0,
                        speed: (speed->0).0,
                        brightness: (brightness->0).0,
                        direction: (direction->0).0,
                        color_mode: (color_mode->0).0,
                        colors: (colors->0).0,
                    },
                    (name->0).1 + (value->0).1 + (flags->0).1 + (speed_min->0).1 + (speed_max->0).1
                        + (brightness_min->0).1 + (brightness_max->0).1 + (colors_min->0).1 + (
                    colors_max->0).1 + (speed->0).1 + (brightness->0).1 + (direction->0).1 + (
                    color_mode->0).1 + (colors->0).1,
                ),
            )
        } else {
            None
        }
    }

    /// The fields end inside the bytes they were decoded from: the name, 36
    /// bytes of numbers, 12 more from protocol version 3 on, and the colors.
    pub proof fn lemma_layout(bytes: Seq<u8>, protocol: u32)
        requires
            ModeWire::spec_deserialize(bytes, protocol) is Some,
        ensures
            ({
                let g: int = if protocol >= 3 {
                    4
                } else {
                    0
                };
                let n0 = (String::spec_deserialize(bytes, protocol)->0).1;
                let nc = (Vec::<Color>::spec_deserialize(
                    bytes.skip(n0 + 36 + 3 * g),
                    protocol,
                )->0).1;
                &&& 0 <= n0
                &&& 0 <= nc
                &&& (ModeWire::spec_deserialize(bytes, protocol)->0).1 == n0 + 36 + 3 * g + nc
                &&& n0 + 36 + 3 * g + nc <= bytes.len()
            }),
    {
        let g: int = if protocol >= 3 {
            4
        } else {
            0
        };
        let n0 = (String::spec_deserialize(bytes, protocol)->0).1;
        String::lemma_deserialize_len(bytes, protocol);
        lemma_step::<i32>(bytes, n0, protocol);
        lemma_step::<u32>(bytes, n0 + 4, protocol);
        lemma_step::<u32>(bytes, n0 + 8, protocol);
        lemma_step::<u32>(bytes, n0 + 12, protocol);
        lemma_step::<ProtocolOption<3, u32>>(bytes, n0 + 16, protocol);
        lemma_step::<ProtocolOption<3, u32>>(bytes, n0 + 16 + g, protocol);
        lemma_step::<u32>(bytes, n0 + 16 + 2 * g, protocol);
        lemma_step::<u32>(bytes, n0 + 20 + 2 * g, protocol);
        lemma_step::<u32>(bytes, n0 + 24 + 2 * g, protocol);
        lemma_step::<ProtocolOption<3, u32>>(bytes, n0 + 28 + 2 * g, protocol);
        lemma_step::<u32>(bytes, n0 + 28 + 3 * g, protocol);
        lemma_step::<u32>(bytes, n0 + 32 + 3 * g, protocol);
        lemma_step::<Vec<Color>>(bytes, n0 + 36 + 3 * g, protocol);
    }
}

/// The models of colors are the colors.
pub proof fn lemma_color_models(colors: Seq<Color>, protocol: u32)
    ensures
        spec_models::<Color>(colors) == colors,
        crate::protocol::sequence::spec_all_canonical::<Color>(colors, protocol) == colors,
        crate::protocol::sequence::spec_all_encodable::<Color>(colors, protocol),
{
    assert(spec_models::<Color>(colors) =~= colors);
    assert(crate::protocol::sequence::spec_all_canonical::<Color>(colors, protocol) =~= colors);
}

impl ModeWire {
    /// Decoding the bytes of the fields, whatever follows them, gives the
    /// fields and consumes exactly those bytes.
    pub proof fn lemma_round_trip(self, protocol: u32, rest: Seq<u8>)
        requires
            self.encodable(protocol),
        ensures
            ModeWire::spec_deserialize(self.spec_serialize(protocol) + rest, protocol) == Some(
                (self, self.spec_serialize(protocol).len() as int),
            ),
    {
        lemma_color_models(self.colors, protocol);
        let t13 = Vec::<Color>::spec_serialize(self.colors, protocol) + rest;
        let t12 = u32::spec_serialize(self.color_mode, protocol) + t13;
        let t11 = u32::spec_serialize(self.direction, protocol) + t12;
        let t10 = ProtocolOption::<3, u32>::spec_serialize(self.brightness, protocol) + t11;
        let t9 = u32::spec_serialize(self.speed, protocol) + t10;
        let t8 = u32::spec_serialize(self.colors_max, protocol) + t9;
        let t7 = u32::spec_serialize(self.colors_min, protocol) + t8;
        let t6 = ProtocolOption::<3, u32>::spec_serialize(self.brightness_max, protocol) + t7;
        let t5 = ProtocolOption::<3, u32>::spec_serialize(self.brightness_min, protocol) + t6;
        let t4 = u32::spec_serialize(self.speed_max, protocol) + t5;
        let t3 = u32::spec_serialize(self.speed_min, protocol) + t4;
        let t2 = u32::spec_serialize(self.flags, protocol) + t3;
        let t1 = i32::spec_serialize(self.value, protocol) + t2;
        lemma_field::<String>(self.name, protocol, t1);
        lemma_field::<i32>(self.value, protocol, t2);
        lemma_field::<u32>(self.flags, protocol, t3);
        lemma_field::<u32>(self.speed_min, protocol, t4);
        lemma_field::<u32>(self.speed_max, protocol, t5);
        lemma_field::<ProtocolOption<3, u32>>(self.brightness_min, protocol, t6);
        lemma_field::<ProtocolOption<3, u32>>(self.brightness_max, protocol, t7);
        lemma_field::<u32>(self.colors_min, protocol, t8);
        lemma_field::<u32>(self.colors_max, protocol, t9);
        lemma_field::<u32>(self.speed, protocol, t10);
        lemma_field::<ProtocolOption<3, u32>>(self.brightness, protocol, t11);
        lemma_field::<u32>(self.direction, protocol, t12);
        lemma_field::<u32>(self.color_mode, protocol, t13);
        lemma_field::<Vec<Color>>(self.colors, protocol, rest);
        let s13 = Vec::<Color>::spec_serialize(self.colors, protocol);
        let s12 = u32::spec_serialize(self.color_mode, protocol) + s13;
        let s11 = u32::spec_serialize(self.direction, protocol) + s12;
        let s10 = ProtocolOption::<3, u32>::spec_serialize(self.brightness, protocol) + s11;
        let s9 = u32::spec_serialize(self.speed, protocol) + s10;
        let s8 = u32::spec_serialize(self.colors_max, protocol) + s9;
        let s7 = u32::spec_serialize(self.colors_min, protocol) + s8;
        let s6 = ProtocolOption::<3, u32>::spec_serialize(self.brightness_max, protocol) + s7;
        let s5 = ProtocolOption::<3, u32>::spec_serialize(self.brightness_min, protocol) + s6;
        let s4 = u32::spec_serialize(self.speed_max, protocol) + s5;
        let s3 = u32::spec_serialize(self.speed_min, protocol) + s4;
        let s2 = u32::spec_serialize(self.flags, protocol) + s3;
        let s1 = i32::spec_serialize(self.value, protocol) + s2;
        lemma_concat(u32::spec_serialize(self.color_mode, protocol), s13, rest);
        lemma_concat(u32::spec_serialize(self.direction, protocol), s12, rest);
        lemma_concat(ProtocolOption::<3, u32>::spec_serialize(self.brightness, protocol), s11, rest);
        lemma_concat(u32::spec_serialize(self.speed, protocol), s10, rest);
        lemma_concat(u32::spec_serialize(self.colors_max, protocol), s9, rest);
        lemma_concat(u32::spec_serialize(self.colors_min, protocol), s8, rest);
        lemma_concat(
            ProtocolOption::<3, u32>::spec_serialize(self.brightness_max, protocol),
            s7,
            rest,
        );
        lemma_concat(
            ProtocolOption::<3, u32>::spec_serialize(self.brightness_min, protocol),
            s6,
            rest,
        );
        lemma_concat(u32::spec_serialize(self.speed_max, protocol), s5, rest);
        lemma_concat(u32::spec_serialize(self.speed_min, protocol), s4, rest);
        lemma_concat(u32::spec_serialize(self.flags, protocol), s3, rest);
        lemma_concat(i32::spec_serialize(self.value, protocol), s2, rest);
        lemma_concat(String::spec_serialize(self.name, protocol), s1, rest);
    }
}

impl ModeModel {
    /// The fields that are transmitted for this mode at `protocol`: 0 stands
    /// for a parameter that is absent.
    pub open spec fn wire(self, protocol: u32) -> ModeWire {
        ModeWire {
            name: self.name,
            value: self.value,
            flags: self.flags.bits,
            speed_min: spec_or_zero(self.speed_min),
            speed_max: spec_or_zero(self.speed_max),
            brightness_min: if protocol >= 3 {
                Some(spec_or_zero(self.brightness_min))
            } else {
                None
            },
            brightness_max: if protocol >= 3 {
                Some(spec_or_zero(self.brightness_max))
            } else {
                None
            },
            colors_min: self.colors_min,
            colors_max: self.colors_max,
            speed: spec_or_zero(self.speed),
            brightness: if protocol >= 3 {
                Some(spec_or_zero(self.brightness))
            } else {
                None
            },
            direction: match self.direction {
                Some(d) => d.spec_code(),
                None => 0,
            },
            color_mode: self.color_mode.spec_code(),
            colors: self.colors,
        }
    }

    /// This mode at position `index`.
    pub open spec fn at(self, index: u32) -> ModeModel {
        ModeModel { index, ..self }
    }
}

impl View for ModeData {
    type V = ModeModel;

    closed spec fn view(&self) -> ModeModel {
        ModeModel {
            name: self.name@,
            value: self.value,
            flags: self.flags,
            speed_min: self.speed_min,
            speed_max: self.speed_max,
            brightness_min: self.brightness_min,
            brightness_max: self.brightness_max,
            colors_min: self.colors_min,
            colors_max: self.colors_max,
            speed: self.speed,
            brightness: self.brightness,
            direction: self.direction,
            color_mode: self.color_mode,
            colors: self.colors@,
            index: self.index,
        }
    }
}

/// `value` where the capability is there, nothing where it is not.
fn gated(capable: bool, value: Option<u32>) -> (res: Option<u32>)
    ensures
        res == spec_gated(capable, value),
{
    if capable {
        value
    } else {
        None
    }
}

/// The number transmitted for an optional parameter: 0 where there is none.
fn or_zero(value: Option<u32>) -> (res: u32)
    ensures
        res == spec_or_zero(value),
{
    match value {
        Some(v) => v,
        None => 0,
    }
}

/// The value of a field that is transmitted from protocol version 3 on.
fn transmitted(field: ProtocolOption<3, u32>) -> (res: Option<u32>)
    ensures
        res == field.model(),
{
    match field {
        ProtocolOption::Supported(v) => Some(v),
        ProtocolOption::UnsupportedVersion => None,
    }
}

impl Clone for ModeData {
    fn clone(&self) -> (res: ModeData)
        ensures
            res@ == self@,
    {
        let mut colors: Vec<Color> = Vec::new();
        let mut i: usize = 0;
        while i < self.colors.len()
            invariant
                i <= self.colors.len(),
                colors@ == self.colors@.take(i as int),
            decreases self.colors.len() - i,
        {
            colors.push(self.colors[i]);
            i += 1;
        }
        proof {
            assert(colors@ =~= self.colors@);
        }
        ModeData {
            name: self.name.clone(),
            value: self.value,
            flags: self.flags,
            speed_min: self.speed_min,
            speed_max: self.speed_max,
            brightness_min: self.brightness_min,
            brightness_max: self.brightness_max,
            colors_min: self.colors_min,
            colors_max: self.colors_max,
            speed: self.speed,
            brightness: self.brightness,
            direction: self.direction,
            color_mode: self.color_mode,
            colors,
            index: self.index,
        }
    }
}

impl ModeData {
    /// A mode with the given name, device-internal number and capabilities,
    /// without parameters or colors, at position 0.
    pub fn new(name: String, value: i32, flags: ModeFlags) -> (mode: ModeData)
        ensures
            mode@ == (ModeModel {
                name: name@,
                value,
                flags,
                speed_min: None,
                speed_max: None,
                brightness_min: None,
                brightness_max: None,
                colors_min: 0,
                colors_max: 0,
                speed: None,
                brightness: None,
                direction: None,
                color_mode: ColorMode::NoColors,
                colors: Seq::<Color>::empty(),
                index: 0,
            }),
    {
        ModeData {
            name,
            value,
            flags,
            speed_min: None,
            speed_max: None,
            brightness_min: None,
            brightness_max: None,
            colors_min: 0,
            colors_max: 0,
            speed: None,
            brightness: None,
            direction: None,
            color_mode: ColorMode::NoColors,
            colors: Vec::new(),
            index: 0,
        }
    }

    /// The name of the mode.
    pub fn name(&self) -> (name: &str)
        ensures
            name@ == self@.name,
    {
        self.name.as_str()
    }

    /// The device-internal number of the mode.
    pub fn value(&self) -> (value: i32)
        ensures
            value == self@.value,
    {
        self.value
    }

    /// The capabilities of the mode.
    pub fn flags(&self) -> (flags: ModeFlags)
        ensures
            flags == self@.flags,
    {
        self.flags
    }

    /// The speed of the mode, if it has one.
    pub fn speed(&self) -> (speed: Option<u32>)
        ensures
            speed == self@.speed,
    {
        self.speed
    }

    /// The lowest speed that the device declares, if it declares one.
    pub fn speed_min(&self) -> (speed_min: Option<u32>)
        ensures
            speed_min == self@.speed_min,
    {
        self.speed_min
    }

    /// The highest speed that the device declares, if it declares one.
    pub fn speed_max(&self) -> (speed_max: Option<u32>)
        ensures
            speed_max == self@.speed_max,
    {
        self.speed_max
    }

    /// The brightness of the mode, if it has one.
    pub fn brightness(&self) -> (brightness: Option<u32>)
        ensures
            brightness == self@.brightness,
    {
        self.brightness
    }

    /// The lowest brightness that the device declares, if it declares one.
    pub fn brightness_min(&self) -> (brightness_min: Option<u32>)
        ensures
            brightness_min == self@.brightness_min,
    {
        self.brightness_min
    }

    /// The highest brightness that the device declares, if it declares one.
    pub fn brightness_max(&self) -> (brightness_max: Option<u32>)
        ensures
            brightness_max == self@.brightness_max,
    {
        self.brightness_max
    }

    /// The direction of the mode, if it has one.
    pub fn direction(&self) -> (direction: Option<Direction>)
        ensures
            direction == self@.direction,
    {
        self.direction
    }

    /// How the mode takes its colors.
    pub fn color_mode(&self) -> (color_mode: ColorMode)
        ensures
            color_mode == self@.color_mode,
    {
        self.color_mode
    }

    /// The fewest colors that the mode takes.
    pub fn colors_min(&self) -> (colors_min: u32)
        ensures
            colors_min == self@.colors_min,
    {
        self.colors_min
    }

    /// The most colors that the mode takes.
    pub fn colors_max(&self) -> (colors_max: u32)
        ensures
            colors_max == self@.colors_max,
    {
        self.colors_max
    }

    /// The colors of the mode.
    pub fn colors(&self) -> (colors: &[Color])
        ensures
            colors@ == self@.colors,
    {
        self.colors.as_slice()
    }

    /// The position of the mode in its controller's list.
    pub fn index(&self) -> (index: u32)
        ensures
            index == self@.index,
    {
        self.index
    }

    /// Sets the speed, whatever the capabilities and bounds are.
    pub fn set_speed(&mut self, speed: u32)
        ensures
            final(self)@ == (ModeModel { speed: Some(speed), ..old(self)@ }),
    {
        self.speed = Some(speed);
    }

    /// Sets the bounds of the speed.
    pub fn set_speed_range(&mut self, min: u32, max: u32)
        ensures
            final(self)@ == (ModeModel { speed_min: Some(min), speed_max: Some(max), ..old(self)@ }),
    {
        self.speed_min = Some(min);
        self.speed_max = Some(max);
    }

    /// Sets the brightness, whatever the capabilities and bounds are.
    pub fn set_brightness(&mut self, brightness: u32)
        ensures
            final(self)@ == (ModeModel { brightness: Some(brightness), ..old(self)@ }),
    {
        self.brightness = Some(brightness);
    }

    /// Sets the bounds of the brightness.
    pub fn set_brightness_range(&mut self, min: u32, max: u32)
        ensures
            final(self)@ == (ModeModel {
                brightness_min: Some(min),
                brightness_max: Some(max),
                ..old(self)@
            }),
    {
        self.brightness_min = Some(min);
        self.brightness_max = Some(max);
    }

    /// Sets the direction, whatever the capabilities are.
    pub fn set_direction(&mut self, direction: Direction)
        ensures
            final(self)@ == (ModeModel { direction: Some(direction), ..old(self)@ }),
    {
        self.direction = Some(direction);
    }

    /// Sets how the mode takes its colors, and the colors.
    pub fn set_colors(&mut self, color_mode: ColorMode, colors: Vec<Color>)
        ensures
            final(self)@ == (ModeModel { color_mode, colors: colors@, ..old(self)@ }),
    {
        self.color_mode = color_mode;
        self.colors = colors;
    }

    /// Sets how many colors the mode takes.
    pub fn set_colors_range(&mut self, min: u32, max: u32)
        ensures
            final(self)@ == (ModeModel { colors_min: min, colors_max: max, ..old(self)@ }),
    {
        self.colors_min = min;
        self.colors_max = max;
    }

    /// Records the position of the mode in its controller's list.
    pub(crate) fn set_index(&mut self, index: u32)
        ensures
            final(self)@ == old(self)@.at(index),
    {
        self.index = index;
    }
}

impl DeserFromBuf for ModeData {
    type Model = ModeModel;

    open spec fn model(&self) -> ModeModel {
        self@
    }

    /// The mode that the transmitted fields describe.
    open spec fn spec_deserialize(bytes: Seq<u8>, protocol: u32) -> Option<(ModeModel, int)> {
        match ModeWire::spec_deserialize(bytes, protocol) {
            Some((wire, used)) => Some((wire.interpret(), used)),
            None => None,
        }
    }

    proof fn lemma_deserialize_len(bytes: Seq<u8>, protocol: u32) {
        if ModeWire::spec_deserialize(bytes, protocol) is Some {
            ModeWire::lemma_layout(bytes, protocol);
        }
    }

    fn deserialize(buf: &mut ReceivedMessage<'_>) -> (res: Result<ModeData, OpenRgbError>) {
        let mut cur = *buf;
        let ghost bytes = cur.remaining();
        let name = cur.read_value::<String>()?;
        let value = cur.read_value::<i32>()?;
        let bits = cur.read_value::<u32>()?;
        let speed_min = cur.read_value::<u32>()?;
        let speed_max = cur.read_value::<u32>()?;
        let brightness_min = cur.read_value::<ProtocolOption<3, u32>>()?;
        let brightness_max = cur.read_value::<ProtocolOption<3, u32>>()?;
        let colors_min = cur.read_value::<u32>()?;
        let colors_max = cur.read_value::<u32>()?;
        let speed = cur.read_value::<u32>()?;
        let brightness = cur.read_value::<ProtocolOption<3, u32>>()?;
        let direction = cur.read_value::<u32>()?;
        let color_mode = cur.read_value::<u32>()?;
        let colors = cur.read_value::<Vec<Color>>()?;
        proof {
            ModeWire::lemma_layout(bytes, cur.protocol_version());
            crate::protocol::wire::lemma_skips(bytes);
            lemma_color_models(colors@, cur.protocol_version());
        }
        let flags = ModeFlags { bits };
        *buf = cur;
        Ok(
            ModeData {
                name,
                value,
                flags,
                speed_min: gated(flags.has_speed(), Some(speed_min)),
                speed_max: gated(flags.has_speed(), Some(speed_max)),
                brightness_min: gated(flags.has_brightness(), transmitted(brightness_min)),
                brightness_max: gated(flags.has_brightness(), transmitted(brightness_max)),
                colors_min,
                colors_max,
                speed: gated(flags.has_speed(), Some(speed)),
                brightness: gated(flags.has_brightness(), transmitted(brightness)),
                direction: if flags.has_direction() {
                    Some(Direction::from_code(direction))
                } else {
                    None
                },
                color_mode: ColorMode::from_code(color_mode),
                colors,
                index: 0,
            },
        )
    }
}

impl SerToBuf for ModeData {
    open spec fn spec_serialize(m: ModeModel, protocol: u32) -> Seq<u8> {
        m.wire(protocol).spec_serialize(protocol)
    }

    open spec fn encodable(m: ModeModel, protocol: u32) -> bool {
        m.wire(protocol).encodable(protocol)
    }

    /// The mode as its transmitted fields describe it: each parameter is
    /// there exactly where its capability flag is set and its field is
    /// transmitted, and is 0 where it was absent; the position is 0.
    open spec fn canonical(m: ModeModel, protocol: u32) -> ModeModel {
        m.wire(protocol).interpret()
    }

    proof fn lemma_round_trip(m: ModeModel, protocol: u32, rest: Seq<u8>) {
        m.wire(protocol).lemma_round_trip(protocol, rest);
    }

    proof fn lemma_decoded_is_canonical(bytes: Seq<u8>, protocol: u32) {
        if let Some((wire, _)) = ModeWire::spec_deserialize(bytes, protocol) {
            crate::data::kinds::lemma_codes_are_kept(wire.direction);
            crate::data::kinds::lemma_codes_are_kept(wire.color_mode);
        }
    }

    fn serialize(&self, buf: &mut WriteMessage) -> (res: Result<(), OpenRgbError>) {
        let protocol = buf.protocol_version();
        let ghost w = self@.wire(protocol);
        let ghost t13 = Vec::<Color>::spec_serialize(w.colors, protocol);
        let ghost t12 = u32::spec_serialize(w.color_mode, protocol) + t13;
        let ghost t11 = u32::spec_serialize(w.direction, protocol) + t12;
        let ghost t10 = ProtocolOption::<3, u32>::spec_serialize(w.brightness, protocol) + t11;
        let ghost t9 = u32::spec_serialize(w.speed, protocol) + t10;
        let ghost t8 = u32::spec_serialize(w.colors_max, protocol) + t9;
        let ghost t7 = u32::spec_serialize(w.colors_min, protocol) + t8;
        let ghost t6 = ProtocolOption::<3, u32>::spec_serialize(w.brightness_max, protocol) + t7;
        let ghost t5 = ProtocolOption::<3, u32>::spec_serialize(w.brightness_min, protocol) + t6;
        let ghost t4 = u32::spec_serialize(w.speed_max, protocol) + t5;
        let ghost t3 = u32::spec_serialize(w.speed_min, protocol) + t4;
        let ghost t2 = u32::spec_serialize(w.flags, protocol) + t3;
        let ghost t1 = i32::spec_serialize(w.value, protocol) + t2;
        proof {
            lemma_color_models(self.colors@, protocol);
            lemma_concat(buf.bytes(), String::spec_serialize(w.name, protocol), t1);
        }
        if self.colors.len() > 0xFFFF {
            return Err(OpenRgbError::CommandError(CommandError::NotEncodable));
        }
        self.name.serialize(buf)?;
        proof {
            lemma_concat(buf.bytes(), i32::spec_serialize(w.value, protocol), t2);
        }
        buf.write_i32(self.value);
        proof {
            lemma_concat(buf.bytes(), u32::spec_serialize(w.flags, protocol), t3);
        }
        buf.write_u32(self.flags.bits);
        proof {
            lemma_concat(buf.bytes(), u32::spec_serialize(w.speed_min, protocol), t4);
        }
        buf.write_u32(or_zero(self.speed_min));
        proof {
            lemma_concat(buf.bytes(), u32::spec_serialize(w.speed_max, protocol), t5);
        }
        buf.write_u32(or_zero(self.speed_max));
        proof {
            lemma_concat(
                buf.bytes(),
                ProtocolOption::<3, u32>::spec_serialize(w.brightness_min, protocol),
                t6,
            );
        }
        put_gated(buf, or_zero(self.brightness_min));
        proof {
            lemma_concat(
                buf.bytes(),
                ProtocolOption::<3, u32>::spec_serialize(w.brightness_max, protocol),
                t7,
            );
        }
        put_gated(buf, or_zero(self.brightness_max));
        proof {
            lemma_concat(buf.bytes(), u32::spec_serialize(w.colors_min, protocol), t8);
        }
        buf.write_u32(self.colors_min);
        proof {
            lemma_concat(buf.bytes(), u32::spec_serialize(w.colors_max, protocol), t9);
        }
        buf.write_u32(self.colors_max);
        proof {
            lemma_concat(buf.bytes(), u32::spec_serialize(w.speed, protocol), t10);
        }
        buf.write_u32(or_zero(self.speed));
        proof {
            lemma_concat(
                buf.bytes(),
                ProtocolOption::<3, u32>::spec_serialize(w.brightness, protocol),
                t11,
            );
        }
        put_gated(buf, or_zero(self.brightness));
        proof {
            lemma_concat(buf.bytes(), u32::spec_serialize(w.direction, protocol), t12);
        }
        buf.write_u32(
            match self.direction {
                Some(d) => d.code(),
                None => 0,
            },
        );
        proof {
            lemma_concat(buf.bytes(), u32::spec_serialize(w.color_mode, protocol), t13);
        }
        buf.write_u32(self.color_mode.code());
        self.colors.serialize(buf)
    }
}

/// Appends a number that is transmitted from protocol version 3 on: its four
/// bytes from that version on, nothing below it.
fn put_gated(buf: &mut WriteMessage, value: u32)
    ensures
        final(buf).protocol_version() == old(buf).protocol_version(),
        final(buf).bytes() == old(buf).bytes() + ProtocolOption::<3, u32>::spec_serialize(
            if old(buf).protocol_version() >= 3 {
                Some(value)
            } else {
                None
            },
            old(buf).protocol_version(),
        ),
{
    if buf.protocol_version() >= 3 {
        buf.write_u32(value);
    } else {
        proof {
            assert(buf.bytes() + Seq::<u8>::empty() =~= buf.bytes());
        }
    }
}


} // verus!

//! Capability bit-sets. A set is open: bits without a name are kept as they
//! came and are handed back as they are.

use vstd::prelude::*;
use crate::error::OpenRgbError;
use crate::protocol::message::{ReceivedMessage, WriteMessage};
use crate::protocol::wire::{DeserFromBuf, SerToBuf};

verus! {

/// The mode has a speed parameter.
pub const MODE_HAS_SPEED: u32 = 0x001;

/// The mode has a left/right direction parameter.
pub const MODE_HAS_DIRECTION_LR: u32 = 0x002;

/// The mode has an up/down direction parameter.
pub const MODE_HAS_DIRECTION_UD: u32 = 0x004;

/// The mode has a horizontal/vertical direction parameter.
pub const MODE_HAS_DIRECTION_HV: u32 = 0x008;

/// The mode has a direction parameter of any of the three kinds.
pub const MODE_HAS_DIRECTION: u32 = 0x00E;

/// The mode has a brightness parameter.
pub const MODE_HAS_BRIGHTNESS: u32 = 0x010;

/// The mode takes a color per LED.
pub const MODE_HAS_PER_LED_COLOR: u32 = 0x020;

/// The mode takes a list of colors of its own.
pub const MODE_HAS_MODE_SPECIFIC_COLOR: u32 = 0x040;

/// The mode can choose its colors at random.
pub const MODE_HAS_RANDOM_COLOR: u32 = 0x080;

/// The mode is saved on request.
pub const MODE_MANUAL_SAVE: u32 = 0x100;

/// The mode is saved whenever it changes.
pub const MODE_AUTOMATIC_SAVE: u32 = 0x200;

/// The capabilities of a mode, one bit each. Bits without a name are kept as
/// they came.
#[derive(Debug, Clone, Copy, PartialEq, Eq, Hash, Structural)]
pub struct ModeFlags {
    pub bits: u32,
}

impl ModeFlags {
    /// Whether any bit of `mask` is set.
    pub open spec fn spec_intersects(self, mask: u32) -> bool {
        (self.bits & mask) != 0
    }

    /// Whether every bit of `mask` is set.
    pub open spec fn spec_contains(self, mask: u32) -> bool {
        (self.bits & mask) == mask
    }

    pub open spec fn spec_has_speed(self) -> bool {
        self.spec_intersects(MODE_HAS_SPEED)
    }

    pub open spec fn spec_has_brightness(self) -> bool {
        self.spec_intersects(MODE_HAS_BRIGHTNESS)
    }

    pub open spec fn spec_has_direction(self) -> bool {
        self.spec_intersects(MODE_HAS_DIRECTION)
    }

    /// The flags with the given bits.
    pub fn from_bits(bits: u32) -> (flags: ModeFlags)
        ensures
            flags.bits == bits,
    {
        ModeFlags { bits }
    }

    /// The bits as they were transmitted.
    pub fn bits(self) -> (bits: u32)
        ensures
            bits == self.bits,
    {
        self.bits
    }

    /// Whether any bit of `mask` is set.
    #[verifier::when_used_as_spec(spec_intersects)]
    pub fn intersects(self, mask: u32) -> (res: bool)
        ensures
            res == self.spec_intersects(mask),
    {
        (self.bits & mask) != 0
    }

    /// Whether every bit of `mask` is set.
    #[verifier::when_used_as_spec(spec_contains)]
    pub fn contains(self, mask: u32) -> (res: bool)
        ensures
            res == self.spec_contains(mask),
    {
        (self.bits & mask) == mask
    }

    /// Whether the mode has a speed parameter.
    #[verifier::when_used_as_spec(spec_has_speed)]
    pub fn has_speed(self) -> (res: bool)
        ensures
            res == self.spec_has_speed(),
    {
        self.intersects(MODE_HAS_SPEED)
    }

    /// Whether the mode has a brightness parameter.
    #[verifier::when_used_as_spec(spec_has_brightness)]
    pub fn has_brightness(self) -> (res: bool)
        ensures
            res == self.spec_has_brightness(),
    {
        self.intersects(MODE_HAS_BRIGHTNESS)
    }

    /// Whether the mode has a direction parameter of any kind.
    #[verifier::when_used_as_spec(spec_has_direction)]
    pub fn has_direction(self) -> (res: bool)
        ensures
            res == self.spec_has_direction(),
    {
        self.intersects(MODE_HAS_DIRECTION)
    }

    /// Whether the mode takes a color per LED.
    pub fn has_per_led_color(self) -> (res: bool)
        ensures
            res == self.spec_intersects(MODE_HAS_PER_LED_COLOR),
    {
        self.intersects(MODE_HAS_PER_LED_COLOR)
    }

    /// Whether the mode takes a list of colors of its own.
    pub fn has_mode_specific_color(self) -> (res: bool)
        ensures
            res == self.spec_intersects(MODE_HAS_MODE_SPECIFIC_COLOR),
    {
        self.intersects(MODE_HAS_MODE_SPECIFIC_COLOR)
    }

    /// Whether the mode can choose its colors at random.
    pub fn has_random_color(self) -> (res: bool)
        ensures
            res == self.spec_intersects(MODE_HAS_RANDOM_COLOR),
    {
        self.intersects(MODE_HAS_RANDOM_COLOR)
    }
}

/// The controller is local to the server.
pub const CONTROLLER_IS_LOCAL: u32 = 0x001;

/// The controller belongs to another server that this one relays.
pub const CONTROLLER_IS_REMOTE: u32 = 0x002;

/// The controller is a virtual device.
pub const CONTROLLER_IS_VIRTUAL: u32 = 0x004;

/// The controller is reset before each update.
pub const CONTROLLER_RESET_BEFORE_UPDATE: u32 = 0x100;

/// The capabilities of a controller, one bit each. Bits without a name are
/// kept as they came.
#[derive(Debug, Clone, Copy, PartialEq, Eq, Hash, Structural)]
pub struct ControllerFlags {
    pub bits: u32,
}

impl ControllerFlags {
    /// Whether any bit of `mask` is set.
    pub open spec fn spec_intersects(self, mask: u32) -> bool {
        (self.bits & mask) != 0
    }

    /// The flags with the given bits.
    pub fn from_bits(bits: u32) -> (flags: ControllerFlags)
        ensures
            flags.bits == bits,
    {
        ControllerFlags { bits }
    }

    /// The bits as they were transmitted.
    pub fn bits(self) -> (bits: u32)
        ensures
            bits == self.bits,
    {
        self.bits
    }

    /// Whether any bit of `mask` is set.
    #[verifier::when_used_as_spec(spec_intersects)]
    pub fn intersects(self, mask: u32) -> (res: bool)
        ensures
            res == self.spec_intersects(mask),
    {
        (self.bits & mask) != 0
    }

    /// Whether the controller is local to the server.
    pub fn is_local(self) -> (res: bool)
        ensures
            res == self.spec_intersects(CONTROLLER_IS_LOCAL),
    {
        self.intersects(CONTROLLER_IS_LOCAL)
    }

    /// Whether the controller belongs to another server.
    pub fn is_remote(self) -> (res: bool)
        ensures
            res == self.spec_intersects(CONTROLLER_IS_REMOTE),
    {
        self.intersects(CONTROLLER_IS_REMOTE)
    }

    /// Whether the controller is a virtual device.
    pub fn is_virtual(self) -> (res: bool)
        ensures
            res == self.spec_intersects(CONTROLLER_IS_VIRTUAL),
    {
        self.intersects(CONTROLLER_IS_VIRTUAL)
    }

    /// Whether the controller is reset before each update.
    pub fn reset_before_update(self) -> (res: bool)
        ensures
            res == self.spec_intersects(CONTROLLER_RESET_BEFORE_UPDATE),
    {
        self.intersects(CONTROLLER_RESET_BEFORE_UPDATE)
    }
}

impl DeserFromBuf for ControllerFlags {
    type Model = ControllerFlags;

    open spec fn model(&self) -> ControllerFlags {
        *self
    }

    /// The 32 bits, whatever they are.
    open spec fn spec_deserialize(bytes: Seq<u8>, protocol: u32) -> Option<(ControllerFlags, int)> {
        match u32::spec_deserialize(bytes, protocol) {
            Some((bits, used)) => Some((ControllerFlags { bits }, used)),
            None => None,
        }
    }

    proof fn lemma_deserialize_len(bytes: Seq<u8>, protocol: u32) {
    }

    fn deserialize(buf: &mut ReceivedMessage<'_>) -> (res: Result<ControllerFlags, OpenRgbError>) {
        let mut cur = *buf;
        let bits = cur.read_u32()?;
        *buf = cur;
        Ok(ControllerFlags { bits })
    }
}

impl SerToBuf for ControllerFlags {
    open spec fn spec_serialize(m: ControllerFlags, protocol: u32) -> Seq<u8> {
        u32::spec_serialize(m.bits, protocol)
    }

    open spec fn encodable(m: ControllerFlags, protocol: u32) -> bool {
        true
    }

    open spec fn canonical(m: ControllerFlags, protocol: u32) -> ControllerFlags {
        m
    }

    proof fn lemma_round_trip(m: ControllerFlags, protocol: u32, rest: Seq<u8>) {
        u32::lemma_round_trip(m.bits, protocol, rest);
    }

    proof fn lemma_decoded_is_canonical(bytes: Seq<u8>, protocol: u32) {
    }

    fn serialize(&self, buf: &mut WriteMessage) -> (res: Result<(), OpenRgbError>) {
        buf.write_u32(self.bits);
        Ok(())
    }
}

} // verus!

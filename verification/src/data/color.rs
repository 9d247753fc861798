//! Colors of single LEDs.

use vstd::prelude::*;
use crate::error::OpenRgbError;
use crate::protocol::message::{ReceivedMessage, WriteMessage};
use crate::protocol::wire::{DeserFromBuf, SerToBuf};

verus! {

/// A color of three 8-bit channels.
#[derive(Debug, Clone, Copy, PartialEq, Eq, Hash, Structural)]
pub struct Color {
    /// Red.
    pub r: u8,
    /// Green.
    pub g: u8,
    /// Blue.
    pub b: u8,
}

impl Color {
    /// Black, the color of every LED that a command leaves unspecified.
    pub open spec fn spec_black() -> Color {
        Color { r: 0, g: 0, b: 0 }
    }

    /// The color with the given channels.
    pub fn new(r: u8, g: u8, b: u8) -> (color: Color)
        ensures
            color == (Color { r, g, b }),
    {
        Color { r, g, b }
    }

    /// Black.
    #[verifier::when_used_as_spec(spec_black)]
    pub fn black() -> (color: Color)
        ensures
            color == Color::spec_black(),
    {
        Color { r: 0, g: 0, b: 0 }
    }
}

impl Default for Color {
    fn default() -> (color: Color)
        ensures
            color == Color::spec_black(),
    {
        Color { r: 0, g: 0, b: 0 }
    }
}

impl DeserFromBuf for Color {
    type Model = Color;

    open spec fn model(&self) -> Color {
        *self
    }

    /// Four bytes: red, green, blue, and one of padding that is not looked at.
    open spec fn spec_deserialize(bytes: Seq<u8>, protocol: u32) -> Option<(Color, int)> {
        if bytes.len() >= 4 {
            Some((Color { r: bytes[0], g: bytes[1], b: bytes[2] }, 4))
        } else {
            None
        }
    }

    proof fn lemma_deserialize_len(bytes: Seq<u8>, protocol: u32) {
    }

    fn deserialize(buf: &mut ReceivedMessage<'_>) -> (res: Result<Color, OpenRgbError>) {
        let mut cur = *buf;
        let bytes = cur.read_bytes(4)?;
        *buf = cur;
        Ok(Color { r: bytes[0], g: bytes[1], b: bytes[2] })
    }
}

impl SerToBuf for Color {
    open spec fn spec_serialize(m: Color, protocol: u32) -> Seq<u8> {
        seq![m.r, m.g, m.b, 0u8]
    }

    open spec fn encodable(m: Color, protocol: u32) -> bool {
        true
    }

    open spec fn canonical(m: Color, protocol: u32) -> Color {
        m
    }

    proof fn lemma_round_trip(m: Color, protocol: u32, rest: Seq<u8>) {
    }

    proof fn lemma_decoded_is_canonical(bytes: Seq<u8>, protocol: u32) {
    }

    fn serialize(&self, buf: &mut WriteMessage) -> (res: Result<(), OpenRgbError>) {
        buf.write_u8(self.r);
        buf.write_u8(self.g);
        buf.write_u8(self.b);
        buf.write_u8(0);
        proof {
            assert(buf.bytes() =~= old(buf).bytes() + seq![self.r, self.g, self.b, 0u8]);
        }
        Ok(())
    }
}

} // verus!

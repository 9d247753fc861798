//! The record of a segment: a user-defined sub-range of a zone.

use vstd::prelude::*;
use crate::error::OpenRgbError;
use crate::protocol::message::{ReceivedMessage, WriteMessage};
use crate::protocol::wire::{lemma_field, lemma_skip_skip, DeserFromBuf, SerToBuf};

verus! {

/// A segment of a zone.
#[derive(Debug, Eq, PartialEq, Clone)]
pub struct SegmentData {
    id: usize,
    name: String,
    offset: u32,
    led_count: u32,
}

/// What a `SegmentData` stands for.
pub ghost struct SegmentModel {
    /// The position of the segment in its zone's list. It is not transmitted.
    pub id: usize,
    pub name: Seq<char>,
    /// The first LED of the segment, counted from the start of its zone.
    pub offset: u32,
    pub led_count: u32,
}

impl SegmentModel {
    /// Whether the segment lies inside a zone of `zone_leds` LEDs.
    pub open spec fn fits(self, zone_leds: u32) -> bool {
        self.offset + self.led_count <= zone_leds
    }

    /// This segment at position `id`.
    pub open spec fn at(self, id: usize) -> SegmentModel {
        SegmentModel { id, ..self }
    }
}

impl View for SegmentData {
    type V = SegmentModel;

    closed spec fn view(&self) -> SegmentModel {
        SegmentModel {
            id: self.id,
            name: self.name@,
            offset: self.offset,
            led_count: self.led_count,
        }
    }
}

impl SegmentData {
    /// A segment that is not part of a zone's list yet: its position is 0.
    pub fn new(name: String, offset: u32, led_count: u32) -> (segment: SegmentData)
        ensures
            segment@ == (SegmentModel { id: 0, name: name@, offset, led_count }),
    {
        SegmentData { id: 0, name, offset, led_count }
    }

    /// The position of the segment in its zone's list.
    pub fn id(&self) -> (id: usize)
        ensures
            id == self@.id,
    {
        self.id
    }

    /// The name of the segment.
    pub fn name(&self) -> (name: &str)
        ensures
            name@ == self@.name,
    {
        self.name.as_str()
    }

    /// The first LED of the segment, counted from the start of its zone.
    pub fn offset(&self) -> (offset: u32)
        ensures
            offset == self@.offset,
    {
        self.offset
    }

    /// The number of LEDs in the segment.
    pub fn led_count(&self) -> (led_count: u32)
        ensures
            led_count == self@.led_count,
    {
        self.led_count
    }

    /// Whether the segment lies inside a zone of `zone_leds` LEDs.
    pub fn fits(&self, zone_leds: u32) -> (res: bool)
        ensures
            res == self@.fits(zone_leds),
    {
        self.offset as u64 + self.led_count as u64 <= zone_leds as u64
    }

    /// Records the position of the segment in its zone's list.
    pub(crate) fn set_id(&mut self, id: usize)
        ensures
            final(self)@ == old(self)@.at(id),
    {
        self.id = id;
    }
}

impl DeserFromBuf for SegmentData {
    type Model = SegmentModel;

    open spec fn model(&self) -> SegmentModel {
        self@
    }

    /// The name, the offset, then the LED count. The position is not
    /// transmitted and is decoded as 0.
    open spec fn spec_deserialize(bytes: Seq<u8>, protocol: u32) -> Option<(SegmentModel, int)> {
        let name = String::spec_deserialize(bytes, protocol);
        let b1 = bytes.skip((name->0).1);
        let offset = u32::spec_deserialize(b1, protocol);
        let b2 = b1.skip((offset->0).1);
        let led_count = u32::spec_deserialize(b2, protocol);
        if name is Some && offset is Some && led_count is Some {
            Some(
                (
                    SegmentModel {
                        id: 0,
                        name: (name->0).0,
                        offset: (offset->0).0,
                        led_count: (led_count->0).0,
                    },
                    (name->0).1 + (offset->0).1 + (led_count->0).1,
                ),
            )
        } else {
            None
        }
    }

    proof fn lemma_deserialize_len(bytes: Seq<u8>, protocol: u32) {
        String::lemma_deserialize_len(bytes, protocol);
    }

    fn deserialize(buf: &mut ReceivedMessage<'_>) -> (res: Result<SegmentData, OpenRgbError>) {
        let mut cur = *buf;
        let ghost bytes = cur.remaining();
        let name = cur.read_value::<String>()?;
        let offset = cur.read_value::<u32>()?;
        let led_count = cur.read_value::<u32>()?;
        proof {
            let n0 = (String::spec_deserialize(bytes, cur.protocol_version())->0).1;
            String::lemma_deserialize_len(bytes, cur.protocol_version());
            lemma_skip_skip(bytes, n0, 4);
            lemma_skip_skip(bytes, n0 + 4, 4);
        }
        *buf = cur;
        Ok(SegmentData { id: 0, name, offset, led_count })
    }
}

impl SerToBuf for SegmentData {
    open spec fn spec_serialize(m: SegmentModel, protocol: u32) -> Seq<u8> {
        String::spec_serialize(m.name, protocol) + (u32::spec_serialize(m.offset, protocol)
            + u32::spec_serialize(m.led_count, protocol))
    }

    open spec fn encodable(m: SegmentModel, protocol: u32) -> bool {
        String::encodable(m.name, protocol)
    }

    open spec fn canonical(m: SegmentModel, protocol: u32) -> SegmentModel {
        m.at(0)
    }

    proof fn lemma_round_trip(m: SegmentModel, protocol: u32, rest: Seq<u8>) {
        let t2 = u32::spec_serialize(m.led_count, protocol) + rest;
        let t1 = u32::spec_serialize(m.offset, protocol) + t2;
        lemma_field::<String>(m.name, protocol, t1);
        lemma_field::<u32>(m.offset, protocol, t2);
        lemma_field::<u32>(m.led_count, protocol, rest);
        assert(Self::spec_serialize(m, protocol) + rest =~= String::spec_serialize(
            m.name,
            protocol,
        ) + t1);
    }

    proof fn lemma_decoded_is_canonical(bytes: Seq<u8>, protocol: u32) {
    }

    fn serialize(&self, buf: &mut WriteMessage) -> (res: Result<(), OpenRgbError>) {
        self.name.serialize(buf)?;
        buf.write_u32(self.offset);
        buf.write_u32(self.led_count);
        proof {
            assert(buf.bytes() =~= old(buf).bytes() + Self::spec_serialize(
                self@,
                buf.protocol_version(),
            ));
        }
        Ok(())
    }
}

} // verus!

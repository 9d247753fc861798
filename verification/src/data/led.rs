//! The record of a single LED.

use vstd::prelude::*;
use crate::error::OpenRgbError;
use crate::protocol::message::{ReceivedMessage, WriteMessage};
use crate::protocol::wire::{lemma_field, lemma_skip_skip, DeserFromBuf, SerToBuf};

verus! {

/// A single LED. It is identified by its position in its controller's list.
#[derive(Debug, Eq, PartialEq, Clone)]
pub struct LedData {
    name: String,
    value: u32,
}

/// What a `LedData` stands for.
pub ghost struct LedModel {
    pub name: Seq<char>,
    pub value: u32,
}

impl View for LedData {
    type V = LedModel;

    closed spec fn view(&self) -> LedModel {
        LedModel { name: self.name@, value: self.value }
    }
}

impl LedData {
    /// The LED with the given name and device-internal value.
    pub fn new(name: String, value: u32) -> (led: LedData)
        ensures
            led@ == (LedModel { name: name@, value }),
    {
        LedData { name, value }
    }

    /// The name of the LED.
    pub fn name(&self) -> (name: &str)
        ensures
            name@ == self@.name,
    {
        self.name.as_str()
    }

    /// The device-internal value of the LED.
    pub fn value(&self) -> (value: u32)
        ensures
            value == self@.value,
    {
        self.value
    }
}

impl DeserFromBuf for LedData {
    type Model = LedModel;

    open spec fn model(&self) -> LedModel {
        self@
    }

    /// The name, then the value.
    open spec fn spec_deserialize(bytes: Seq<u8>, protocol: u32) -> Option<(LedModel, int)> {
        let name = String::spec_deserialize(bytes, protocol);
        let b1 = bytes.skip((name->0).1);
        let value = u32::spec_deserialize(b1, protocol);
        if name is Some && value is Some {
            Some((LedModel { name: (name->0).0, value: (value->0).0 }, (name->0).1 + (value->0).1))
        } else {
            None
        }
    }

    proof fn lemma_deserialize_len(bytes: Seq<u8>, protocol: u32) {
        String::lemma_deserialize_len(bytes, protocol);
    }

    fn deserialize(buf: &mut ReceivedMessage<'_>) -> (res: Result<LedData, OpenRgbError>) {
        let mut cur = *buf;
        let ghost bytes = cur.remaining();
        let name = cur.read_value::<String>()?;
        let value = cur.read_value::<u32>()?;
        proof {
            let n0 = (String::spec_deserialize(bytes, cur.protocol_version())->0).1;
            String::lemma_deserialize_len(bytes, cur.protocol_version());
            lemma_skip_skip(bytes, n0, 4);
        }
        *buf = cur;
        Ok(LedData { name, value })
    }
}

impl SerToBuf for LedData {
    open spec fn spec_serialize(m: LedModel, protocol: u32) -> Seq<u8> {
        String::spec_serialize(m.name, protocol) + u32::spec_serialize(m.value, protocol)
    }

    open spec fn encodable(m: LedModel, protocol: u32) -> bool {
        String::encodable(m.name, protocol)
    }

    open spec fn canonical(m: LedModel, protocol: u32) -> LedModel {
        m
    }

    proof fn lemma_round_trip(m: LedModel, protocol: u32, rest: Seq<u8>) {
        let t1 = u32::spec_serialize(m.value, protocol) + rest;
        lemma_field::<String>(m.name, protocol, t1);
        lemma_field::<u32>(m.value, protocol, rest);
        assert(Self::spec_serialize(m, protocol) + rest =~= String::spec_serialize(
            m.name,
            protocol,
        ) + t1);
    }

    proof fn lemma_decoded_is_canonical(bytes: Seq<u8>, protocol: u32) {
    }

    fn serialize(&self, buf: &mut WriteMessage) -> (res: Result<(), OpenRgbError>) {
        self.name.serialize(buf)?;
        buf.write_u32(self.value);
        proof {
            assert(buf.bytes() =~= old(buf).bytes() + Self::spec_serialize(
                self@,
                buf.protocol_version(),
            ));
        }
        Ok(())
    }
}

} // verus!

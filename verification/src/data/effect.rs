//! The records of the effects extension.

use vstd::prelude::*;
use crate::error::OpenRgbError;
use crate::protocol::message::{ReceivedMessage, WriteMessage};
use crate::protocol::wire::{lemma_concat, lemma_field, lemma_skips, lemma_step, DeserFromBuf,
    SerToBuf};

verus! {

/// The requests of the effects extension.
#[derive(Debug, Clone, Copy, PartialEq, Eq, Hash, Structural)]
pub enum EffectsPluginPacket {
    /// Asks for the list of effects.
    RequestEffectList,
    /// Starts the effect that the request names.
    StartEffect,
    /// Stops the effect that the request names.
    StopEffect,
}

impl EffectsPluginPacket {
    /// The code of the request.
    pub open spec fn spec_code(self) -> u32 {
        match self {
            EffectsPluginPacket::RequestEffectList => 0,
            EffectsPluginPacket::StartEffect => 20,
            EffectsPluginPacket::StopEffect => 21,
        }
    }

    /// The code of the request.
    #[verifier::when_used_as_spec(spec_code)]
    pub fn code(self) -> (code: u32)
        ensures
            code == self.spec_code(),
    {
        match self {
            EffectsPluginPacket::RequestEffectList => 0,
            EffectsPluginPacket::StartEffect => 20,
            EffectsPluginPacket::StopEffect => 21,
        }
    }
}

/// An effect that the effects extension offers.
#[derive(Debug, Clone, PartialEq, Eq)]
pub struct PluginEffect {
    name: String,
    description: String,
    enabled: bool,
}

/// What a `PluginEffect` stands for.
pub ghost struct PluginEffectModel {
    pub name: Seq<char>,
    pub description: Seq<char>,
    /// Whether the effect is running.
    pub enabled: bool,
}

impl View for PluginEffect {
    type V = PluginEffectModel;

    closed spec fn view(&self) -> PluginEffectModel {
        PluginEffectModel {
            name: self.name@,
            description: self.description@,
            enabled: self.enabled,
        }
    }
}

impl PluginEffect {
    /// The effect with the given name, description and state.
    pub fn new(name: String, description: String, enabled: bool) -> (effect: PluginEffect)
        ensures
            effect@ == (PluginEffectModel { name: name@, description: description@, enabled }),
    {
        PluginEffect { name, description, enabled }
    }

    /// The name of the effect.
    pub fn name(&self) -> (name: &str)
        ensures
            name@ == self@.name,
    {
        self.name.as_str()
    }

    /// The description of the effect.
    pub fn description(&self) -> (description: &str)
        ensures
            description@ == self@.description,
    {
        self.description.as_str()
    }

    /// Whether the effect is running.
    pub fn enabled(&self) -> (enabled: bool)
        ensures
            enabled == self@.enabled,
    {
        self.enabled
    }
}

impl DeserFromBuf for PluginEffect {
    type Model = PluginEffectModel;

    open spec fn model(&self) -> PluginEffectModel {
        self@
    }

    /// The name, the description, and one byte that is 0 exactly where the
    /// effect is not running.
    open spec fn spec_deserialize(bytes: Seq<u8>, protocol: u32) -> Option<
        (PluginEffectModel, int),
    > {
        let name = String::spec_deserialize(bytes, protocol);
        let b1 = bytes.skip((name->0).1);
        let description = String::spec_deserialize(b1, protocol);
        let b2 = b1.skip((description->0).1);
        let enabled = u8::spec_deserialize(b2, protocol);
        if name is Some && description is Some && enabled is Some {
            Some(
                (
                    PluginEffectModel {
                        name: (name->0).0,
                        description: (description->0).0,
                        enabled: (enabled->0).0 != 0,
                    },
                    (name->0).1 + (description->0).1 + (enabled->0).1,
                ),
            )
        } else {
            None
        }
    }

    proof fn lemma_deserialize_len(bytes: Seq<u8>, protocol: u32) {
        if Self::spec_deserialize(bytes, protocol) is Some {
            let n0 = (String::spec_deserialize(bytes, protocol)->0).1;
            String::lemma_deserialize_len(bytes, protocol);
            lemma_step::<String>(bytes, n0, protocol);
        }
    }

    fn deserialize(buf: &mut ReceivedMessage<'_>) -> (res: Result<PluginEffect, OpenRgbError>) {
        let mut cur = *buf;
        let ghost bytes = cur.remaining();
        let name = cur.read_value::<String>()?;
        let description = cur.read_value::<String>()?;
        let enabled = cur.read_u8()? != 0;
        proof {
            Self::lemma_deserialize_len(bytes, cur.protocol_version());
            let n0 = (String::spec_deserialize(bytes, cur.protocol_version())->0).1;
            String::lemma_deserialize_len(bytes, cur.protocol_version());
            lemma_step::<String>(bytes, n0, cur.protocol_version());
            lemma_skips(bytes);
        }
        *buf = cur;
        Ok(PluginEffect { name, description, enabled })
    }
}

/// The byte that stands for a truth value.
pub open spec fn spec_flag_byte(flag: bool) -> u8 {
    if flag {
        1
    } else {
        0
    }
}

impl SerToBuf for PluginEffect {
    open spec fn spec_serialize(m: PluginEffectModel, protocol: u32) -> Seq<u8> {
        String::spec_serialize(m.name, protocol) + (String::spec_serialize(m.description, protocol)
            + u8::spec_serialize(spec_flag_byte(m.enabled), protocol))
    }

    open spec fn encodable(m: PluginEffectModel, protocol: u32) -> bool {
        String::encodable(m.name, protocol) && String::encodable(m.description, protocol)
    }

    open spec fn canonical(m: PluginEffectModel, protocol: u32) -> PluginEffectModel {
        m
    }

    proof fn lemma_round_trip(m: PluginEffectModel, protocol: u32, rest: Seq<u8>) {
        let f0 = String::spec_serialize(m.name, protocol);
        let f1 = String::spec_serialize(m.description, protocol);
        let f2 = u8::spec_serialize(spec_flag_byte(m.enabled), protocol);
        let t2 = f2 + rest;
        let t1 = f1 + t2;
        lemma_concat(f1, f2, rest);
        lemma_concat(f0, f1 + f2, rest);
        lemma_field::<String>(m.name, protocol, t1);
        lemma_field::<String>(m.description, protocol, t2);
        lemma_field::<u8>(spec_flag_byte(m.enabled), protocol, rest);
    }

    proof fn lemma_decoded_is_canonical(bytes: Seq<u8>, protocol: u32) {
    }

    fn serialize(&self, buf: &mut WriteMessage) -> (res: Result<(), OpenRgbError>) {
        let protocol = buf.protocol_version();
        let mut scratch = WriteMessage::new(protocol);
        self.name.serialize(&mut scratch)?;
        self.description.serialize(&mut scratch)?;
        scratch.write_u8(if self.enabled { 1 } else { 0 });
        proof {
            let f0 = String::spec_serialize(self@.name, protocol);
            let f1 = String::spec_serialize(self@.description, protocol);
            let f2 = u8::spec_serialize(spec_flag_byte(self@.enabled), protocol);
            assert(Seq::<u8>::empty() + f0 =~= f0);
            lemma_concat(f0, f1, f2);
            assert(seq![spec_flag_byte(self@.enabled)] =~= Seq::<u8>::empty().push(
                spec_flag_byte(self@.enabled),
            ));
            assert((f0 + f1).push(spec_flag_byte(self@.enabled)) =~= (f0 + f1) + f2);
        }
        buf.write_slice(scratch.as_bytes());
        Ok(())
    }
}

} // verus!

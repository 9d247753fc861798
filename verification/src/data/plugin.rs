//! The record of an extension of the server, as the server lists it.

use vstd::prelude::*;
use crate::error::OpenRgbError;
use crate::protocol::message::{ReceivedMessage, WriteMessage};
use crate::protocol::wire::{lemma_concat, lemma_field, lemma_skips, lemma_step, DeserFromBuf,
    SerToBuf};

verus! {

/// An extension of the server.
#[derive(Debug, Clone, PartialEq, Eq)]
pub struct PluginData {
    name: String,
    description: String,
    version: String,
    index: u32,
    sdk_version: u32,
}

/// What a `PluginData` stands for.
pub ghost struct PluginModel {
    pub name: Seq<char>,
    pub description: Seq<char>,
    pub version: Seq<char>,
    /// The number by which requests address the extension.
    pub index: u32,
    /// The version of the extension's own protocol.
    pub sdk_version: u32,
}

impl View for PluginData {
    type V = PluginModel;

    closed spec fn view(&self) -> PluginModel {
        PluginModel {
            name: self.name@,
            description: self.description@,
            version: self.version@,
            index: self.index,
            sdk_version: self.sdk_version,
        }
    }
}

impl PluginData {
    /// The record with the given fields.
    pub fn new(
        name: String,
        description: String,
        version: String,
        index: u32,
        sdk_version: u32,
    ) -> (plugin: PluginData)
        ensures
            plugin@ == (PluginModel {
                name: name@,
                description: description@,
                version: version@,
                index,
                sdk_version,
            }),
    {
        PluginData { name, description, version, index, sdk_version }
    }

    /// The name of the extension.
    pub fn name(&self) -> (name: &str)
        ensures
            name@ == self@.name,
    {
        self.name.as_str()
    }

    /// The name of the extension, as the text that holds it.
    pub closed spec fn spec_name_text(&self) -> String {
        self.name
    }

    /// The text that holds the name of the extension spells that name.
    pub proof fn lemma_name_text(self)
        ensures
            self.spec_name_text()@ == self@.name,
    {
    }

    /// The name of the extension, taken out of the record.
    pub fn into_name(self) -> (name: String)
        ensures
            name == self.spec_name_text(),
            name@ == self@.name,
    {
        self.name
    }

    /// The description of the extension.
    pub fn description(&self) -> (description: &str)
        ensures
            description@ == self@.description,
    {
        self.description.as_str()
    }

    /// The version of the extension.
    pub fn version(&self) -> (version: &str)
        ensures
            version@ == self@.version,
    {
        self.version.as_str()
    }

    /// The number by which requests address the extension.
    pub fn index(&self) -> (index: u32)
        ensures
            index == self@.index,
    {
        self.index
    }

    /// The version of the extension's own protocol.
    pub fn sdk_version(&self) -> (sdk_version: u32)
        ensures
            sdk_version == self@.sdk_version,
    {
        self.sdk_version
    }
}

impl DeserFromBuf for PluginData {
    type Model = PluginModel;

    open spec fn model(&self) -> PluginModel {
        self@
    }

    /// The name, the description, the version, the index, and the version of
    /// the extension's own protocol.
    open spec fn spec_deserialize(bytes: Seq<u8>, protocol: u32) -> Option<(PluginModel, int)> {
        let name = String::spec_deserialize(bytes, protocol);
        let b1 = bytes.skip((name->0).1);
        let description = String::spec_deserialize(b1, protocol);
        let b2 = b1.skip((description->0).1);
        let version = String::spec_deserialize(b2, protocol);
        let b3 = b2.skip((version->0).1);
        let index = u32::spec_deserialize(b3, protocol);
        let b4 = b3.skip((index->0).1);
        let sdk_version = u32::spec_deserialize(b4, protocol);
        if name is Some && description is Some && version is Some && index is Some
            && sdk_version is Some {
            Some(
                (
                    PluginModel {
                        name: (name->0).0,
                        description: (description->0).0,
                        version: (version->0).0,
                        index: (index->0).0,
                        sdk_version: (sdk_version->0).0,
                    },
                    (name->0).1 + (description->0).1 + (version->0).1 + (index->0).1 + (
                    sdk_version->0).1,
                ),
            )
        } else {
            None
        }
    }

    proof fn lemma_deserialize_len(bytes: Seq<u8>, protocol: u32) {
        if Self::spec_deserialize(bytes, protocol) is Some {
            let n0 = (String::spec_deserialize(bytes, protocol)->0).1;
            String::lemma_deserialize_len(bytes, protocol);
            lemma_step::<String>(bytes, n0, protocol);
            let n1 = (String::spec_deserialize(bytes.skip(n0), protocol)->0).1;
            lemma_step::<String>(bytes, n0 + n1, protocol);
            let n2 = (String::spec_deserialize(bytes.skip(n0 + n1), protocol)->0).1;
            lemma_step::<u32>(bytes, n0 + n1 + n2, protocol);
            lemma_step::<u32>(bytes, n0 + n1 + n2 + 4, protocol);
        }
    }

    fn deserialize(buf: &mut ReceivedMessage<'_>) -> (res: Result<PluginData, OpenRgbError>) {
        let mut cur = *buf;
        let ghost bytes = cur.remaining();
        let name = cur.read_value::<String>()?;
        let description = cur.read_value::<String>()?;
        let version = cur.read_value::<String>()?;
        let index = cur.read_value::<u32>()?;
        let sdk_version = cur.read_value::<u32>()?;
        proof {
            let protocol = cur.protocol_version();
            let n0 = (String::spec_deserialize(bytes, protocol)->0).1;
            String::lemma_deserialize_len(bytes, protocol);
            lemma_step::<String>(bytes, n0, protocol);
            let n1 = (String::spec_deserialize(bytes.skip(n0), protocol)->0).1;
            lemma_step::<String>(bytes, n0 + n1, protocol);
            lemma_skips(bytes);
        }
        *buf = cur;
        Ok(PluginData { name, description, version, index, sdk_version })
    }
}

impl SerToBuf for PluginData {
    open spec fn spec_serialize(m: PluginModel, protocol: u32) -> Seq<u8> {
        String::spec_serialize(m.name, protocol) + (String::spec_serialize(m.description, protocol)
            + (String::spec_serialize(m.version, protocol) + (u32::spec_serialize(
            m.index,
            protocol,
        ) + u32::spec_serialize(m.sdk_version, protocol))))
    }

    open spec fn encodable(m: PluginModel, protocol: u32) -> bool {
        String::encodable(m.name, protocol) && String::encodable(m.description, protocol)
            && String::encodable(m.version, protocol)
    }

    open spec fn canonical(m: PluginModel, protocol: u32) -> PluginModel {
        m
    }

    proof fn lemma_round_trip(m: PluginModel, protocol: u32, rest: Seq<u8>) {
        let f0 = String::spec_serialize(m.name, protocol);
        let f1 = String::spec_serialize(m.description, protocol);
        let f2 = String::spec_serialize(m.version, protocol);
        let f3 = u32::spec_serialize(m.index, protocol);
        let f4 = u32::spec_serialize(m.sdk_version, protocol);
        let t4 = f4 + rest;
        let t3 = f3 + t4;
        let t2 = f2 + t3;
        let t1 = f1 + t2;
        lemma_concat(f3, f4, rest);
        lemma_concat(f2, f3 + f4, rest);
        lemma_concat(f1, f2 + (f3 + f4), rest);
        lemma_concat(f0, f1 + (f2 + (f3 + f4)), rest);
        lemma_field::<String>(m.name, protocol, t1);
        lemma_field::<String>(m.description, protocol, t2);
        lemma_field::<String>(m.version, protocol, t3);
        lemma_field::<u32>(m.index, protocol, t4);
        lemma_field::<u32>(m.sdk_version, protocol, rest);
    }

    proof fn lemma_decoded_is_canonical(bytes: Seq<u8>, protocol: u32) {
    }

    fn serialize(&self, buf: &mut WriteMessage) -> (res: Result<(), OpenRgbError>) {
        let protocol = buf.protocol_version();
        let mut scratch = WriteMessage::new(protocol);
        let ghost f0 = String::spec_serialize(self@.name, protocol);
        let ghost f1 = String::spec_serialize(self@.description, protocol);
        let ghost f2 = String::spec_serialize(self@.version, protocol);
        let ghost f3 = u32::spec_serialize(self@.index, protocol);
        let ghost f4 = u32::spec_serialize(self@.sdk_version, protocol);
        proof {
            assert(Seq::<u8>::empty() + Self::spec_serialize(self@, protocol)
                =~= Self::spec_serialize(self@, protocol));
            lemma_concat(scratch.bytes(), f0, f1 + (f2 + (f3 + f4)));
        }
        self.name.serialize(&mut scratch)?;
        proof {
            lemma_concat(scratch.bytes(), f1, f2 + (f3 + f4));
        }
        self.description.serialize(&mut scratch)?;
        proof {
            lemma_concat(scratch.bytes(), f2, f3 + f4);
        }
        self.version.serialize(&mut scratch)?;
        proof {
            lemma_concat(scratch.bytes(), f3, f4);
        }
        scratch.write_u32(self.index);
        scratch.write_u32(self.sdk_version);
        buf.write_slice(scratch.as_bytes());
        Ok(())
    }
}

} // verus!

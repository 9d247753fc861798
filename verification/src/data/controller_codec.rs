//! The codec of the record of a controller.

use vstd::prelude::*;
use crate::data::color::Color;
use crate::data::controller::{index_modes, index_zones, lemma_total_leds_same, spec_index_modes,
    spec_index_zones, spec_total_leds, total_leds, ControllerData, ControllerModel,
    NO_CONTROLLER_ID};
use crate::data::flags::ControllerFlags;
use crate::data::kinds::{lemma_codes_are_kept, DeviceType};
use crate::data::led::LedData;
use crate::data::mode::{lemma_color_models, ModeData, ModeModel};
use crate::data::zone::{lemma_decoded_zone_well_formed, ZoneData, ZoneModel};
use crate::error::{CommandError, OpenRgbError};
use crate::protocol::message::{ReceivedMessage, WriteMessage};
use crate::protocol::sequence::{lemma_decoded_all_canonical, lemma_deserialize_n_each,
    lemma_deserialize_n_len, lemma_round_trip_all, read_n_values, spec_all_canonical,
    spec_all_encodable, spec_deserialize_n, spec_serialize_all, write_all};
use crate::protocol::version::ProtocolOption;
use crate::protocol::wire::{lemma_concat, lemma_field, lemma_int_bytes, lemma_skip_skip,
    lemma_skips, lemma_step, spec_u16_le, DeserFromBuf, SerToBuf};

verus! {

impl ControllerModel {
    /// The fields of a controller spelled by a prefix of `bytes`, as they
    /// stand on the wire, with the length of that prefix: the size of the
    /// record, which must not announce more bytes than are there and is not
    /// kept; the code of the kind of device; name, vendor, description, version, serial and location;
    /// the number of modes; the position of the active mode; the modes; the
    /// zones; the LEDs; the colors; and from protocol version 5 on the
    /// alternate names and the capabilities. Modes and zones are at position
    /// 0, `id` is the id of no controller and `num_leds` is 0.
    pub open spec fn spec_deserialize_fields(bytes: Seq<u8>, protocol: u32) -> Option<
        (ControllerModel, int),
    > {
        let size = u32::spec_deserialize(bytes, protocol);
        let b1 = bytes.skip((size->0).1);
        let device_type = u32::spec_deserialize(b1, protocol);
        let b2 = b1.skip((device_type->0).1);
        let name = String::spec_deserialize(b2, protocol);
        let b3 = b2.skip((name->0).1);
        let vendor = String::spec_deserialize(b3, protocol);
        let b4 = b3.skip((vendor->0).1);
        let description = String::spec_deserialize(b4, protocol);
        let b5 = b4.skip((description->0).1);
        let version = String::spec_deserialize(b5, protocol);
        let b6 = b5.skip((version->0).1);
        let serial = String::spec_deserialize(b6, protocol);
        let b7 = b6.skip((serial->0).1);
        let location = String::spec_deserialize(b7, protocol);
        let b8 = b7.skip((location->0).1);
        let num_modes = u16::spec_deserialize(b8, protocol);
        let b9 = b8.skip((num_modes->0).1);
        let active_mode = i32::spec_deserialize(b9, protocol);
        let b10 = b9.skip((active_mode->0).1);
        let modes = spec_deserialize_n::<ModeData>(b10, protocol, (num_modes->0).0 as nat);
        let b11 = b10.skip((modes->0).1);
        let zones = Vec::<ZoneData>::spec_deserialize(b11, protocol);
        let b12 = b11.skip((zones->0).1);
        let leds = Vec::<LedData>::spec_deserialize(b12, protocol);
        let b13 = b12.skip((leds->0).1);
        let colors = Vec::<Color>::spec_deserialize(b13, protocol);
        let b14 = b13.skip((colors->0).1);
        let led_alt_names = ProtocolOption::<5, Vec<String>>::spec_deserialize(b14, protocol);
        let b15 = b14.skip((led_alt_names->0).1);
        let flags = ProtocolOption::<5, ControllerFlags>::spec_deserialize(b15, protocol);
        if size is Some && (size->0).0 <= bytes.len() && device_type is Some && name is Some
            && vendor is Some
            && description is Some && version is Some && serial is Some && location is Some
            && num_modes is Some && active_mode is Some && modes is Some && zones is Some
            && leds is Some && colors is Some && led_alt_names is Some && flags is Some {
            Some(
                (
                    ControllerModel {
                        device_type: DeviceType::spec_from_code((device_type->0).0),
                        name: (name->0).0,
                        vendor: (vendor->0).0,
                        description: (description->0).0,
                        version: (version->0).0,
                        serial: (serial->0).0,
                        location: (location->0).0,
                        active_mode: (active_mode->0).0,
                        modes: (modes->0).0,
                        zones: (zones->0).0,
                        leds: (leds->0).0,
                        colors: (colors->0).0,
                        led_alt_names: (led_alt_names->0).0,
                        flags: (flags->0).0,
                        id: NO_CONTROLLER_ID,
                        num_leds: 0,
                    },
                    (size->0).1 + (device_type->0).1 + (name->0).1 + (vendor->0).1 + (
                    description->0).1 + (version->0).1 + (serial->0).1 + (location->0).1 + (
                    num_modes->0).1 + (active_mode->0).1 + (modes->0).1 + (zones->0).1 + (
                    leds->0).1 + (colors->0).1 + (led_alt_names->0).1 + (flags->0).1,
                ),
            )
        } else {
            None
        }
    }

    /// Whether the transmitted fields describe a controller: the active mode
    /// is one of the modes, and the number of LEDs fits a `usize`.
    pub open spec fn consistent(self) -> bool {
        &&& 0 <= self.active_mode < self.modes.len()
        &&& spec_total_leds(self.zones) <= usize::MAX
    }

    /// The controller that consistent transmitted fields describe: every mode
    /// and zone at its position, and the LEDs of the zones counted.
    pub open spec fn settled(self) -> ControllerModel {
        ControllerModel {
            modes: spec_index_modes(self.modes),
            zones: spec_index_zones(self.zones),
            num_leds: spec_total_leds(self.zones) as usize,
            ..self
        }
    }
}

/// The fields of a controller end inside the bytes they were decoded from.
pub proof fn lemma_controller_layout(bytes: Seq<u8>, protocol: u32)
    requires
        ControllerModel::spec_deserialize_fields(bytes, protocol) is Some,
    ensures
        ({
            let n2 = (String::spec_deserialize(bytes.skip(8), protocol)->0).1;
            let n3 = (String::spec_deserialize(bytes.skip(8 + n2), protocol)->0).1;
            let n4 = (String::spec_deserialize(bytes.skip(8 + n2 + n3), protocol)->0).1;
            let n5 = (String::spec_deserialize(bytes.skip(8 + n2 + n3 + n4), protocol)->0).1;
            let n6 = (String::spec_deserialize(bytes.skip(8 + n2 + n3 + n4 + n5), protocol)->0).1;
            let n7 = (String::spec_deserialize(
                bytes.skip(8 + n2 + n3 + n4 + n5 + n6),
                protocol,
            )->0).1;
            let at = 8 + n2 + n3 + n4 + n5 + n6 + n7;
            let count = (u16::spec_deserialize(bytes.skip(at), protocol)->0).0;
            let n10 = (spec_deserialize_n::<ModeData>(
                bytes.skip(at + 6),
                protocol,
                count as nat,
            )->0).1;
            let n11 = (Vec::<ZoneData>::spec_deserialize(bytes.skip(at + 6 + n10), protocol)->0).1;
            let n12 = (Vec::<LedData>::spec_deserialize(
                bytes.skip(at + 6 + n10 + n11),
                protocol,
            )->0).1;
            let n13 = (Vec::<Color>::spec_deserialize(
                bytes.skip(at + 6 + n10 + n11 + n12),
                protocol,
            )->0).1;
            let n14 = (ProtocolOption::<5, Vec<String>>::spec_deserialize(
                bytes.skip(at + 6 + n10 + n11 + n12 + n13),
                protocol,
            )->0).1;
            let n15 = (ProtocolOption::<5, ControllerFlags>::spec_deserialize(
                bytes.skip(at + 6 + n10 + n11 + n12 + n13 + n14),
                protocol,
            )->0).1;
            &&& 0 <= n2 && 0 <= n3 && 0 <= n4 && 0 <= n5 && 0 <= n6 && 0 <= n7
            &&& 0 <= n10 && 0 <= n11 && 0 <= n12 && 0 <= n13 && 0 <= n14 && 0 <= n15
            &&& (ControllerModel::spec_deserialize_fields(bytes, protocol)->0).1 == at + 6 + n10
                + n11 + n12 + n13 + n14 + n15
            &&& at + 6 + n10 + n11 + n12 + n13 + n14 + n15 <= bytes.len()
            &&& (spec_deserialize_n::<ModeData>(bytes.skip(at + 6), protocol, count as nat)->0).0.len()
                == count
        }),
{
    lemma_step::<u32>(bytes, 4, protocol);
    lemma_step::<String>(bytes, 8, protocol);
    let n2 = (String::spec_deserialize(bytes.skip(8), protocol)->0).1;
    lemma_step::<String>(bytes, 8 + n2, protocol);
    let n3 = (String::spec_deserialize(bytes.skip(8 + n2), protocol)->0).1;
    lemma_step::<String>(bytes, 8 + n2 + n3, protocol);
    let n4 = (String::spec_deserialize(bytes.skip(8 + n2 + n3), protocol)->0).1;
    lemma_step::<String>(bytes, 8 + n2 + n3 + n4, protocol);
    let n5 = (String::spec_deserialize(bytes.skip(8 + n2 + n3 + n4), protocol)->0).1;
    lemma_step::<String>(bytes, 8 + n2 + n3 + n4 + n5, protocol);
    let n6 = (String::spec_deserialize(bytes.skip(8 + n2 + n3 + n4 + n5), protocol)->0).1;
    lemma_step::<String>(bytes, 8 + n2 + n3 + n4 + n5 + n6, protocol);
    let n7 = (String::spec_deserialize(bytes.skip(8 + n2 + n3 + n4 + n5 + n6), protocol)->0).1;
    let at = 8 + n2 + n3 + n4 + n5 + n6 + n7;
    lemma_step::<u16>(bytes, at, protocol);
    lemma_step::<i32>(bytes, at + 2, protocol);
    let count = (u16::spec_deserialize(bytes.skip(at), protocol)->0).0;
    lemma_deserialize_n_len::<ModeData>(bytes.skip(at + 6), protocol, count as nat);
    let n10 = (spec_deserialize_n::<ModeData>(bytes.skip(at + 6), protocol, count as nat)->0).1;
    lemma_skip_skip(bytes, at + 6, n10);
    lemma_step::<Vec<ZoneData>>(bytes, at + 6 + n10, protocol);
    let n11 = (Vec::<ZoneData>::spec_deserialize(bytes.skip(at + 6 + n10), protocol)->0).1;
    lemma_step::<Vec<LedData>>(bytes, at + 6 + n10 + n11, protocol);
    let n12 = (Vec::<LedData>::spec_deserialize(bytes.skip(at + 6 + n10 + n11), protocol)->0).1;
    lemma_step::<Vec<Color>>(bytes, at + 6 + n10 + n11 + n12, protocol);
    let n13 = (Vec::<Color>::spec_deserialize(
        bytes.skip(at + 6 + n10 + n11 + n12),
        protocol,
    )->0).1;
    lemma_step::<ProtocolOption<5, Vec<String>>>(bytes, at + 6 + n10 + n11 + n12 + n13, protocol);
    let n14 = (ProtocolOption::<5, Vec<String>>::spec_deserialize(
        bytes.skip(at + 6 + n10 + n11 + n12 + n13),
        protocol,
    )->0).1;
    lemma_step::<ProtocolOption<5, ControllerFlags>>(
        bytes,
        at + 6 + n10 + n11 + n12 + n13 + n14,
        protocol,
    );
}

impl DeserFromBuf for ControllerData {
    type Model = ControllerModel;

    open spec fn model(&self) -> ControllerModel {
        self@
    }

    /// The controller that the transmitted fields describe, where they are
    /// consistent. An active mode that is none of the modes makes the message
    /// malformed: this is a choice of this library, the protocol is silent on
    /// it.
    open spec fn spec_deserialize(bytes: Seq<u8>, protocol: u32) -> Option<(ControllerModel, int)> {
        match ControllerModel::spec_deserialize_fields(bytes, protocol) {
            Some((fields, used)) => if fields.consistent() {
                Some((fields.settled(), used))
            } else {
                None
            },
            None => None,
        }
    }

    proof fn lemma_deserialize_len(bytes: Seq<u8>, protocol: u32) {
        if ControllerModel::spec_deserialize_fields(bytes, protocol) is Some {
            lemma_controller_layout(bytes, protocol);
        }
    }

    fn deserialize(buf: &mut ReceivedMessage<'_>) -> (res: Result<ControllerData, OpenRgbError>)
        ensures
            res matches Ok(controller) ==> controller@.well_formed() && controller.num_leds
                == spec_total_leds(controller@.zones),
    {
        proof {
            lemma_decoded_controller_well_formed(buf.remaining(), buf.protocol_version());
        }
        let mut cur = *buf;
        let mut fields = read_fields(&mut cur)?;
        if fields.active_mode < 0 || fields.active_mode as usize >= fields.modes.len() {
            return Err(OpenRgbError::MalformedMessage);
        }
        let num_leds = match total_leds(&fields.zones) {
            Some(n) => n,
            None => {
                return Err(OpenRgbError::MalformedMessage);
            },
        };
        index_modes(&mut fields.modes);
        index_zones(&mut fields.zones);
        fields.num_leds = num_leds;
        *buf = cur;
        Ok(fields)
    }
}

/// Decodes the fields of a controller as they stand on the wire.
fn read_fields(buf: &mut ReceivedMessage<'_>) -> (res: Result<ControllerData, OpenRgbError>)
    ensures
        final(buf).protocol_version() == old(buf).protocol_version(),
        match ControllerModel::spec_deserialize_fields(
            old(buf).remaining(),
            old(buf).protocol_version(),
        ) {
            Some((m, n)) => {
                &&& res is Ok
                &&& res->Ok_0@ == m
                &&& res->Ok_0.modes.len() <= 0xFFFF
                &&& final(buf).remaining() == old(buf).remaining().skip(n)
            },
            None => res == Err::<ControllerData, OpenRgbError>(OpenRgbError::MalformedMessage),
        },
{
    let mut cur = *buf;
    let ghost bytes = cur.remaining();
    let ghost protocol = cur.protocol_version();
    let available = cur.available();
    let size = cur.read_value::<u32>()?;
    if size as usize > available {
        return Err(OpenRgbError::MalformedMessage);
    }
    let device_type = cur.read_value::<u32>()?;
    let name = cur.read_value::<String>()?;
    let vendor = cur.read_value::<String>()?;
    let description = cur.read_value::<String>()?;
    let version = cur.read_value::<String>()?;
    let serial = cur.read_value::<String>()?;
    let location = cur.read_value::<String>()?;
    let num_modes = cur.read_value::<u16>()?;
    let active_mode = cur.read_value::<i32>()?;
    let modes = read_n_values::<ModeData>(&mut cur, num_modes as usize)?;
    let zones = cur.read_value::<Vec<ZoneData>>()?;
    let leds = cur.read_value::<Vec<LedData>>()?;
    let colors = cur.read_value::<Vec<Color>>()?;
    let led_alt_names = cur.read_value::<ProtocolOption<5, Vec<String>>>()?;
    let flags = cur.read_value::<ProtocolOption<5, ControllerFlags>>()?;
    proof {
        lemma_controller_layout(bytes, protocol);
        lemma_skips(bytes);
        lemma_color_models(colors@, protocol);
    }
    *buf = cur;
    Ok(
        ControllerData {
            device_type: DeviceType::from_code(device_type),
            name,
            vendor,
            description,
            version,
            serial,
            location,
            active_mode,
            modes,
            zones,
            leds,
            colors,
            led_alt_names,
            flags,
            id: NO_CONTROLLER_ID,
            num_leds: 0,
        },
    )
}


impl ControllerModel {
    /// The bytes of the fields behind the size of the record.
    pub open spec fn spec_serialize_body(self, protocol: u32) -> Seq<u8> {
        u32::spec_serialize(self.device_type.spec_code(), protocol) + (String::spec_serialize(
            self.name,
            protocol,
        ) + (String::spec_serialize(self.vendor, protocol) + (String::spec_serialize(
            self.description,
            protocol,
        ) + (String::spec_serialize(self.version, protocol) + (String::spec_serialize(
            self.serial,
            protocol,
        ) + (String::spec_serialize(self.location, protocol) + (u16::spec_serialize(
            self.modes.len() as u16,
            protocol,
        ) + (i32::spec_serialize(self.active_mode, protocol) + (spec_serialize_all::<ModeData>(
            self.modes,
            protocol,
        ) + (Vec::<ZoneData>::spec_serialize(self.zones, protocol) + (Vec::<
            LedData,
        >::spec_serialize(self.leds, protocol) + (Vec::<Color>::spec_serialize(
            self.colors,
            protocol,
        ) + (ProtocolOption::<5, Vec<String>>::spec_serialize(self.led_alt_names, protocol)
            + ProtocolOption::<5, ControllerFlags>::spec_serialize(
            self.flags,
            protocol,
        ))))))))))))))
    }

    /// Whether each field can be spelled at `protocol`.
    pub open spec fn fields_encodable(self, protocol: u32) -> bool {
        &&& String::encodable(self.name, protocol)
        &&& String::encodable(self.vendor, protocol)
        &&& String::encodable(self.description, protocol)
        &&& String::encodable(self.version, protocol)
        &&& String::encodable(self.serial, protocol)
        &&& String::encodable(self.location, protocol)
        &&& self.modes.len() <= 0xFFFF
        &&& spec_all_encodable::<ModeData>(self.modes, protocol)
        &&& Vec::<ZoneData>::encodable(self.zones, protocol)
        &&& Vec::<LedData>::encodable(self.leds, protocol)
        &&& Vec::<Color>::encodable(self.colors, protocol)
        &&& ProtocolOption::<5, Vec<String>>::encodable(self.led_alt_names, protocol)
        &&& ProtocolOption::<5, ControllerFlags>::encodable(self.flags, protocol)
    }

    /// The fields as decoding the bytes of this controller yields them.
    pub open spec fn fields_canonical(self, protocol: u32) -> ControllerModel {
        ControllerModel {
            device_type: DeviceType::spec_from_code(self.device_type.spec_code()),
            modes: spec_all_canonical::<ModeData>(self.modes, protocol),
            zones: Vec::<ZoneData>::canonical(self.zones, protocol),
            leds: Vec::<LedData>::canonical(self.leds, protocol),
            colors: Vec::<Color>::canonical(self.colors, protocol),
            led_alt_names: ProtocolOption::<5, Vec<String>>::canonical(
                self.led_alt_names,
                protocol,
            ),
            flags: ProtocolOption::<5, ControllerFlags>::canonical(self.flags, protocol),
            id: NO_CONTROLLER_ID,
            num_leds: 0,
            ..self
        }
    }

    /// Decoding the size of the record and the bytes of the fields, whatever
    /// follows them, gives the fields and consumes exactly those bytes.
    pub proof fn lemma_fields_round_trip(self, protocol: u32, size: u32, rest: Seq<u8>)
        requires
            self.fields_encodable(protocol),
            size <= 4 + self.spec_serialize_body(protocol).len() + rest.len(),
        ensures
            ControllerModel::spec_deserialize_fields(
                u32::spec_serialize(size, protocol) + self.spec_serialize_body(protocol) + rest,
                protocol,
            ) == Some(
                (self.fields_canonical(protocol), 4 + self.spec_serialize_body(protocol).len() as int),
            ),
    {
        let f0 = u32::spec_serialize(size, protocol);
        let f1 = u32::spec_serialize(self.device_type.spec_code(), protocol);
        let f2 = String::spec_serialize(self.name, protocol);
        let f3 = String::spec_serialize(self.vendor, protocol);
        let f4 = String::spec_serialize(self.description, protocol);
        let f5 = String::spec_serialize(self.version, protocol);
        let f6 = String::spec_serialize(self.serial, protocol);
        let f7 = String::spec_serialize(self.location, protocol);
        let f8 = u16::spec_serialize(self.modes.len() as u16, protocol);
        let f9 = i32::spec_serialize(self.active_mode, protocol);
        let f10 = spec_serialize_all::<ModeData>(self.modes, protocol);
        let f11 = Vec::<ZoneData>::spec_serialize(self.zones, protocol);
        let f12 = Vec::<LedData>::spec_serialize(self.leds, protocol);
        let f13 = Vec::<Color>::spec_serialize(self.colors, protocol);
        let f14 = ProtocolOption::<5, Vec<String>>::spec_serialize(self.led_alt_names, protocol);
        let f15 = ProtocolOption::<5, ControllerFlags>::spec_serialize(self.flags, protocol);
        let s14 = f14 + f15;
        let s13 = f13 + s14;
        let s12 = f12 + s13;
        let s11 = f11 + s12;
        let s10 = f10 + s11;
        let s9 = f9 + s10;
        let s8 = f8 + s9;
        let s7 = f7 + s8;
        let s6 = f6 + s7;
        let s5 = f5 + s6;
        let s4 = f4 + s5;
        let s3 = f3 + s4;
        let s2 = f2 + s3;
        let s1 = f1 + s2;
        let t15 = f15 + rest;
        let t14 = f14 + t15;
        let t13 = f13 + t14;
        let t12 = f12 + t13;
        let t11 = f11 + t12;
        let t10 = f10 + t11;
        let t9 = f9 + t10;
        let t8 = f8 + t9;
        let t7 = f7 + t8;
        let t6 = f6 + t7;
        let t5 = f5 + t6;
        let t4 = f4 + t5;
        let t3 = f3 + t4;
        let t2 = f2 + t3;
        let t1 = f1 + t2;
        lemma_concat(f14, f15, rest);
        lemma_concat(f13, s14, rest);
        lemma_concat(f12, s13, rest);
        lemma_concat(f11, s12, rest);
        lemma_concat(f10, s11, rest);
        lemma_concat(f9, s10, rest);
        lemma_concat(f8, s9, rest);
        lemma_concat(f7, s8, rest);
        lemma_concat(f6, s7, rest);
        lemma_concat(f5, s6, rest);
        lemma_concat(f4, s5, rest);
        lemma_concat(f3, s4, rest);
        lemma_concat(f2, s3, rest);
        lemma_concat(f1, s2, rest);
        lemma_concat(f0, s1, rest);
        assert(f0 + self.spec_serialize_body(protocol) + rest == f0 + t1);
        lemma_int_bytes(0, size, t1);
        lemma_field::<u32>(size, protocol, t1);
        lemma_field::<u32>(self.device_type.spec_code(), protocol, t2);
        lemma_field::<String>(self.name, protocol, t3);
        lemma_field::<String>(self.vendor, protocol, t4);
        lemma_field::<String>(self.description, protocol, t5);
        lemma_field::<String>(self.version, protocol, t6);
        lemma_field::<String>(self.serial, protocol, t7);
        lemma_field::<String>(self.location, protocol, t8);
        lemma_field::<u16>(self.modes.len() as u16, protocol, t9);
        lemma_field::<i32>(self.active_mode, protocol, t10);
        lemma_round_trip_all::<ModeData>(self.modes, protocol, t11);
        assert(t10.skip(f10.len() as int) =~= t11);
        lemma_field::<Vec<ZoneData>>(self.zones, protocol, t12);
        lemma_field::<Vec<LedData>>(self.leds, protocol, t13);
        lemma_field::<Vec<Color>>(self.colors, protocol, t14);
        lemma_field::<ProtocolOption<5, Vec<String>>>(self.led_alt_names, protocol, t15);
        lemma_field::<ProtocolOption<5, ControllerFlags>>(self.flags, protocol, rest);
    }
}

/// The canonical forms of zones have the LEDs of the zones.
pub proof fn lemma_total_leds_canonical(zones: Seq<ZoneModel>, protocol: u32)
    ensures
        spec_total_leds(spec_all_canonical::<ZoneData>(zones, protocol)) == spec_total_leds(zones),
{
    lemma_total_leds_same(spec_all_canonical::<ZoneData>(zones, protocol), zones);
}

impl SerToBuf for ControllerData {
    /// The size of the record, its own four bytes included, then the fields.
    open spec fn spec_serialize(m: ControllerModel, protocol: u32) -> Seq<u8> {
        u32::spec_serialize((4 + m.spec_serialize_body(protocol).len()) as u32, protocol)
            + m.spec_serialize_body(protocol)
    }

    /// Each field can be spelled, the fields are consistent, and the size of
    /// the record fits its field.
    open spec fn encodable(m: ControllerModel, protocol: u32) -> bool {
        &&& m.fields_encodable(protocol)
        &&& m.consistent()
        &&& 4 + m.spec_serialize_body(protocol).len() <= 0xFFFF_FFFF
    }

    /// The controller with every part in its canonical form, every mode and
    /// zone at its position, the LEDs of the zones counted, and the id of no
    /// controller.
    open spec fn canonical(m: ControllerModel, protocol: u32) -> ControllerModel {
        m.fields_canonical(protocol).settled()
    }

    proof fn lemma_round_trip(m: ControllerModel, protocol: u32, rest: Seq<u8>) {
        let size = (4 + m.spec_serialize_body(protocol).len()) as u32;
        m.lemma_fields_round_trip(protocol, size, rest);
        lemma_total_leds_canonical(m.zones, protocol);
        lemma_int_bytes(0, size, m.spec_serialize_body(protocol));
    }

    proof fn lemma_decoded_is_canonical(bytes: Seq<u8>, protocol: u32) {
        lemma_decoded_controller_canonical(bytes, protocol);
    }

    fn serialize(&self, buf: &mut WriteMessage) -> (res: Result<(), OpenRgbError>) {
        let protocol = buf.protocol_version();
        if self.active_mode < 0 || self.active_mode as usize >= self.modes.len()
            || self.modes.len() > 0xFFFF {
            return Err(OpenRgbError::CommandError(CommandError::NotEncodable));
        }
        if total_leds(&self.zones).is_none() {
            return Err(OpenRgbError::CommandError(CommandError::NotEncodable));
        }
        let body = write_fields(self, protocol)?;
        if body.len() > 0xFFFF_FFFB {
            return Err(OpenRgbError::CommandError(CommandError::NotEncodable));
        }
        buf.write_u32((body.len() + 4) as u32);
        proof {
            lemma_concat(
                old(buf).bytes(),
                u32::spec_serialize((body.bytes().len() + 4) as u32, protocol),
                body.bytes(),
            );
        }
        buf.write_slice(body.as_bytes());
        Ok(())
    }
}

/// Encodes the fields of a controller behind the size of the record.
fn write_fields(c: &ControllerData, protocol: u32) -> (res: Result<WriteMessage, OpenRgbError>)
    requires
        c.modes.len() <= 0xFFFF,
    ensures
        res is Ok <==> c@.fields_encodable(protocol),
        res matches Ok(body) ==> body.bytes() == c@.spec_serialize_body(protocol)
            && body.protocol_version() == protocol,
        res matches Err(e) ==> e == OpenRgbError::CommandError(CommandError::NotEncodable),
{
    let mut body = WriteMessage::new(protocol);
    let ghost m = c@;
    let ghost f2 = String::spec_serialize(m.name, protocol);
    let ghost f3 = String::spec_serialize(m.vendor, protocol);
    let ghost f4 = String::spec_serialize(m.description, protocol);
    let ghost f5 = String::spec_serialize(m.version, protocol);
    let ghost f6 = String::spec_serialize(m.serial, protocol);
    let ghost f7 = String::spec_serialize(m.location, protocol);
    let ghost f8 = u16::spec_serialize(m.modes.len() as u16, protocol);
    let ghost f9 = i32::spec_serialize(m.active_mode, protocol);
    let ghost f10 = spec_serialize_all::<ModeData>(m.modes, protocol);
    let ghost f11 = Vec::<ZoneData>::spec_serialize(m.zones, protocol);
    let ghost f12 = Vec::<LedData>::spec_serialize(m.leds, protocol);
    let ghost f13 = Vec::<Color>::spec_serialize(m.colors, protocol);
    let ghost f14 = ProtocolOption::<5, Vec<String>>::spec_serialize(m.led_alt_names, protocol);
    let ghost f15 = ProtocolOption::<5, ControllerFlags>::spec_serialize(m.flags, protocol);
    let ghost s14 = f14 + f15;
    let ghost s13 = f13 + s14;
    let ghost s12 = f12 + s13;
    let ghost s11 = f11 + s12;
    let ghost s10 = f10 + s11;
    let ghost s9 = f9 + s10;
    let ghost s8 = f8 + s9;
    let ghost s7 = f7 + s8;
    let ghost s6 = f6 + s7;
    let ghost s5 = f5 + s6;
    let ghost s4 = f4 + s5;
    let ghost s3 = f3 + s4;
    let ghost s2 = f2 + s3;
    proof {
        lemma_color_models(c.colors@, protocol);
        assert(Seq::<u8>::empty() + m.spec_serialize_body(protocol) =~= m.spec_serialize_body(
            protocol,
        ));
        lemma_concat(body.bytes(), u32::spec_serialize(m.device_type.spec_code(), protocol), s2);
    }
    body.write_u32(c.device_type.code());
    proof {
        lemma_concat(body.bytes(), f2, s3);
    }
    c.name.serialize(&mut body)?;
    proof {
        lemma_concat(body.bytes(), f3, s4);
    }
    c.vendor.serialize(&mut body)?;
    proof {
        lemma_concat(body.bytes(), f4, s5);
    }
    c.description.serialize(&mut body)?;
    proof {
        lemma_concat(body.bytes(), f5, s6);
    }
    c.version.serialize(&mut body)?;
    proof {
        lemma_concat(body.bytes(), f6, s7);
    }
    c.serial.serialize(&mut body)?;
    proof {
        lemma_concat(body.bytes(), f7, s8);
    }
    c.location.serialize(&mut body)?;
    proof {
        lemma_concat(body.bytes(), f8, s9);
    }
    body.write_u16(c.modes.len() as u16);
    proof {
        lemma_concat(body.bytes(), f9, s10);
    }
    body.write_i32(c.active_mode);
    proof {
        lemma_concat(body.bytes(), f10, s11);
    }
    write_all::<ModeData>(&mut body, &c.modes)?;
    proof {
        lemma_concat(body.bytes(), f11, s12);
    }
    c.zones.serialize(&mut body)?;
    proof {
        lemma_concat(body.bytes(), f12, s13);
    }
    c.leds.serialize(&mut body)?;
    proof {
        lemma_concat(body.bytes(), f13, s14);
    }
    c.colors.serialize(&mut body)?;
    proof {
        lemma_concat(body.bytes(), f14, f15);
    }
    c.led_alt_names.serialize(&mut body)?;
    c.flags.serialize(&mut body)?;
    Ok(body)
}


/// Every decoded controller is well formed: in particular its number of LEDs
/// is the sum of its zones' LED counts, and every segment of every zone ends
/// inside its zone.
pub proof fn lemma_decoded_controller_well_formed(bytes: Seq<u8>, protocol: u32)
    ensures
        ControllerData::spec_deserialize(bytes, protocol) matches Some((controller, _)) ==> {
            &&& controller.well_formed()
            &&& controller.num_leds == spec_total_leds(controller.zones)
            &&& forall|zone: int, segment: int| #[trigger]
                controller.has_segment(zone, segment)
                    ==> controller.zones[zone].segments->0[segment].offset
                    + controller.zones[zone].segments->0[segment].led_count
                    <= controller.zones[zone].leds_count
        },
{
    if let Some((controller, _)) = ControllerData::spec_deserialize(bytes, protocol) {

        lemma_controller_layout(bytes, protocol);
        lemma_skips(bytes);
        let fields = (ControllerModel::spec_deserialize_fields(bytes, protocol)->0).0;
        let zones = fields.zones;
        assert(spec_index_modes(spec_index_modes(fields.modes)) =~= spec_index_modes(
            fields.modes,
        ));
        assert(spec_index_zones(spec_index_zones(zones)) =~= spec_index_zones(zones));
        lemma_total_leds_same(spec_index_zones(zones), zones);
        let n2 = (String::spec_deserialize(bytes.skip(8), protocol)->0).1;
        let n3 = (String::spec_deserialize(bytes.skip(8 + n2), protocol)->0).1;
        let n4 = (String::spec_deserialize(bytes.skip(8 + n2 + n3), protocol)->0).1;
        let n5 = (String::spec_deserialize(bytes.skip(8 + n2 + n3 + n4), protocol)->0).1;
        let n6 = (String::spec_deserialize(bytes.skip(8 + n2 + n3 + n4 + n5), protocol)->0).1;
        let n7 = (String::spec_deserialize(
            bytes.skip(8 + n2 + n3 + n4 + n5 + n6),
            protocol,
        )->0).1;
        let at = 8 + n2 + n3 + n4 + n5 + n6 + n7;
        let count = (u16::spec_deserialize(bytes.skip(at), protocol)->0).0;
        let n10 = (spec_deserialize_n::<ModeData>(bytes.skip(at + 6), protocol, count as nat)->0).1;
        let zone_bytes = bytes.skip(at + 6 + n10);
        assert(Vec::<ZoneData>::spec_deserialize(zone_bytes, protocol) is Some);
        let zone_count = spec_u16_le(zone_bytes) as nat;
        lemma_deserialize_n_len::<ZoneData>(zone_bytes.skip(2), protocol, zone_count);
        assert forall|k: int| 0 <= k < controller.zones.len() implies (
        #[trigger] controller.zones[k]).well_formed() by {
            lemma_deserialize_n_each::<ZoneData>(zone_bytes.skip(2), protocol, zone_count, k);
            let b = choose|b: int|
                0 <= b <= zone_bytes.skip(2).len() && (#[trigger] ZoneData::spec_deserialize(
                    zone_bytes.skip(2).skip(b),
                    protocol,
                )) is Some && (ZoneData::spec_deserialize(
                    zone_bytes.skip(2).skip(b),
                    protocol,
                )->0).0 == zones[k];
            lemma_decoded_zone_well_formed(zone_bytes.skip(2).skip(b), protocol);
        }
        assert(controller.well_formed());
        assert forall|zone: int, segment: int| #[trigger]
            controller.has_segment(zone, segment) implies controller.zones[zone].segments->0[
            segment
        ].offset + controller.zones[zone].segments->0[segment].led_count
            <= controller.zones[zone].leds_count by {
            controller.lemma_segment_run(zone, segment);
        }
    }
}

/// The canonical form of a mode or a zone does not depend on its position.
pub proof fn lemma_canonical_ignores_position(
    mode: ModeModel,
    zone: ZoneModel,
    index: u32,
    id: usize,
    protocol: u32,
)
    ensures
        ModeData::canonical(mode.at(index), protocol) == ModeData::canonical(mode, protocol),
        ZoneData::canonical(zone.at(id), protocol) == ZoneData::canonical(zone, protocol),
{
}

/// Every decoded controller is in canonical form.
pub proof fn lemma_decoded_controller_canonical(bytes: Seq<u8>, protocol: u32)
    ensures
        ControllerData::spec_deserialize(bytes, protocol) matches Some((controller, _))
            ==> ControllerData::canonical(controller, protocol) == controller,
{
    if let Some((controller, _)) = ControllerData::spec_deserialize(bytes, protocol) {
        lemma_controller_layout(bytes, protocol);
        lemma_skips(bytes);
        let fields = (ControllerModel::spec_deserialize_fields(bytes, protocol)->0).0;
        let n2 = (String::spec_deserialize(bytes.skip(8), protocol)->0).1;
        let n3 = (String::spec_deserialize(bytes.skip(8 + n2), protocol)->0).1;
        let n4 = (String::spec_deserialize(bytes.skip(8 + n2 + n3), protocol)->0).1;
        let n5 = (String::spec_deserialize(bytes.skip(8 + n2 + n3 + n4), protocol)->0).1;
        let n6 = (String::spec_deserialize(bytes.skip(8 + n2 + n3 + n4 + n5), protocol)->0).1;
        let n7 = (String::spec_deserialize(
            bytes.skip(8 + n2 + n3 + n4 + n5 + n6),
            protocol,
        )->0).1;
        let at = 8 + n2 + n3 + n4 + n5 + n6 + n7;
        let count = (u16::spec_deserialize(bytes.skip(at), protocol)->0).0;
        let n10 = (spec_deserialize_n::<ModeData>(bytes.skip(at + 6), protocol, count as nat)->0).1;
        let n11 = (Vec::<ZoneData>::spec_deserialize(bytes.skip(at + 6 + n10), protocol)->0).1;
        let n12 = (Vec::<LedData>::spec_deserialize(
            bytes.skip(at + 6 + n10 + n11),
            protocol,
        )->0).1;
        let n13 = (Vec::<Color>::spec_deserialize(
            bytes.skip(at + 6 + n10 + n11 + n12),
            protocol,
        )->0).1;
        let n14 = (ProtocolOption::<5, Vec<String>>::spec_deserialize(
            bytes.skip(at + 6 + n10 + n11 + n12 + n13),
            protocol,
        )->0).1;
        lemma_codes_are_kept((u32::spec_deserialize(bytes.skip(4), protocol)->0).0);
        lemma_decoded_all_canonical::<ModeData>(bytes.skip(at + 6), protocol, count as nat);
        Vec::<ZoneData>::lemma_decoded_is_canonical(bytes.skip(at + 6 + n10), protocol);
        Vec::<LedData>::lemma_decoded_is_canonical(bytes.skip(at + 6 + n10 + n11), protocol);
        Vec::<Color>::lemma_decoded_is_canonical(bytes.skip(at + 6 + n10 + n11 + n12), protocol);
        ProtocolOption::<5, Vec<String>>::lemma_decoded_is_canonical(
            bytes.skip(at + 6 + n10 + n11 + n12 + n13),
            protocol,
        );
        ProtocolOption::<5, ControllerFlags>::lemma_decoded_is_canonical(
            bytes.skip(at + 6 + n10 + n11 + n12 + n13 + n14),
            protocol,
        );
        let settled = fields.settled();
        let again = settled.fields_canonical(protocol);
        assert forall|i: int| 0 <= i < fields.modes.len() implies spec_all_canonical::<ModeData>(
            settled.modes,
            protocol,
        )[i] == fields.modes[i].at(0) by {
            lemma_canonical_ignores_position(
                fields.modes[i],
                fields.zones[0],
                i as u32,
                0,
                protocol,
            );
            assert(spec_all_canonical::<ModeData>(fields.modes, protocol)[i] == fields.modes[i]);
        }
        assert(spec_index_modes(again.modes) =~= settled.modes);
        assert forall|i: int| 0 <= i < fields.zones.len() implies spec_all_canonical::<ZoneData>(
            settled.zones,
            protocol,
        )[i] == fields.zones[i].at(0) by {
            lemma_canonical_ignores_position(
                fields.modes[0],
                fields.zones[i],
                0,
                i as usize,
                protocol,
            );
            assert(spec_all_canonical::<ZoneData>(fields.zones, protocol)[i] == fields.zones[i]);
        }
        assert(spec_index_zones(again.zones) =~= settled.zones);
        lemma_total_leds_same(again.zones, fields.zones);
        lemma_total_leds_same(settled.zones, fields.zones);
    }
}

/// Round trip of a decoded controller: where a controller that was decoded
/// can be spelled, decoding its bytes at the same protocol version gives the
/// same controller again, field for field.
pub proof fn lemma_controller_round_trip(bytes: Seq<u8>, protocol: u32, rest: Seq<u8>)
    requires
        ControllerData::spec_deserialize(bytes, protocol) is Some,
        ControllerData::encodable((ControllerData::spec_deserialize(bytes, protocol)->0).0, protocol),
    ensures
        ({
            let controller = (ControllerData::spec_deserialize(bytes, protocol)->0).0;
            let spelled = ControllerData::spec_serialize(controller, protocol);
            ControllerData::spec_deserialize(spelled + rest, protocol) == Some(
                (controller, spelled.len() as int),
            )
        }),
{
    let controller = (ControllerData::spec_deserialize(bytes, protocol)->0).0;
    lemma_decoded_controller_canonical(bytes, protocol);
    ControllerData::lemma_round_trip(controller, protocol, rest);
}

} // verus!

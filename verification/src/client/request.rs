//! The requests that the client sends. A request is built and validated
//! locally; whoever holds the connection sends it and awaits the answer.

use vstd::prelude::*;
use crate::data::color::Color;
use crate::data::mode::{ModeData, ModeModel};
use crate::data::segment::{SegmentData, SegmentModel};
use crate::error::{CommandError, OpenRgbError};
use crate::protocol::message::WriteMessage;
use crate::protocol::wire::{lemma_concat, SerToBuf};

verus! {

/// A request to the server, for one controller.
#[derive(Debug, PartialEq, Eq)]
pub enum Request {
    /// Asks for the data of the controller.
    RequestControllerData { controller_id: u32 },
    /// Resizes a zone.
    ResizeZone { controller_id: u32, zone_id: u32, new_size: u32 },
    /// Removes every segment of every zone of the controller.
    ClearSegments { controller_id: u32 },
    /// Adds a segment to a zone.
    AddSegment { controller_id: u32, zone_id: u32, segment: SegmentData },
    /// Sets the colors of all LEDs of the controller.
    UpdateLeds { controller_id: u32, colors: Vec<Color> },
    /// Sets the colors of the LEDs of a zone, from its first LED on.
    UpdateZoneLeds { controller_id: u32, zone_id: u32, colors: Vec<Color> },
    /// Sets the color of one LED of the controller.
    UpdateSingleLed { controller_id: u32, led_id: usize, color: Color },
    /// Sets a mode of the controller to the given record and makes it active.
    UpdateMode { controller_id: u32, mode: ModeData },
}

/// What a `Request` stands for.
pub ghost enum RequestModel {
    RequestControllerData { controller_id: u32 },
    ResizeZone { controller_id: u32, zone_id: u32, new_size: u32 },
    ClearSegments { controller_id: u32 },
    AddSegment { controller_id: u32, zone_id: u32, segment: SegmentModel },
    UpdateLeds { controller_id: u32, colors: Seq<Color> },
    UpdateZoneLeds { controller_id: u32, zone_id: u32, colors: Seq<Color> },
    UpdateSingleLed { controller_id: u32, led_id: usize, color: Color },
    UpdateMode { controller_id: u32, mode: ModeModel },
}

impl View for Request {
    type V = RequestModel;

    open spec fn view(&self) -> RequestModel {
        match *self {
            Request::RequestControllerData { controller_id } => {
                RequestModel::RequestControllerData { controller_id }
            },
            Request::ResizeZone { controller_id, zone_id, new_size } => RequestModel::ResizeZone {
                controller_id,
                zone_id,
                new_size,
            },
            Request::ClearSegments { controller_id } => RequestModel::ClearSegments {
                controller_id,
            },
            Request::AddSegment { controller_id, zone_id, segment } => RequestModel::AddSegment {
                controller_id,
                zone_id,
                segment: segment@,
            },
            Request::UpdateLeds { controller_id, colors } => RequestModel::UpdateLeds {
                controller_id,
                colors: colors@,
            },
            Request::UpdateZoneLeds { controller_id, zone_id, colors } => {
                RequestModel::UpdateZoneLeds { controller_id, zone_id, colors: colors@ }
            },
            Request::UpdateSingleLed { controller_id, led_id, color } => {
                RequestModel::UpdateSingleLed { controller_id, led_id, color }
            },
            Request::UpdateMode { controller_id, mode } => RequestModel::UpdateMode {
                controller_id,
                mode: mode@,
            },
        }
    }
}

impl RequestModel {
    /// The controller that the request is for.
    pub open spec fn controller_id(self) -> u32 {
        match self {
            RequestModel::RequestControllerData { controller_id } => controller_id,
            RequestModel::ResizeZone { controller_id, .. } => controller_id,
            RequestModel::ClearSegments { controller_id } => controller_id,
            RequestModel::AddSegment { controller_id, .. } => controller_id,
            RequestModel::UpdateLeds { controller_id, .. } => controller_id,
            RequestModel::UpdateZoneLeds { controller_id, .. } => controller_id,
            RequestModel::UpdateSingleLed { controller_id, .. } => controller_id,
            RequestModel::UpdateMode { controller_id, .. } => controller_id,
        }
    }

    /// The code that names the kind of the request in a message header.
    pub open spec fn packet_id(self) -> u32 {
        match self {
            RequestModel::RequestControllerData { .. } => 1,
            RequestModel::ResizeZone { .. } => 1000,
            RequestModel::ClearSegments { .. } => 1001,
            RequestModel::AddSegment { .. } => 1002,
            RequestModel::UpdateLeds { .. } => 1050,
            RequestModel::UpdateZoneLeds { .. } => 1051,
            RequestModel::UpdateSingleLed { .. } => 1052,
            RequestModel::UpdateMode { .. } => 1101,
        }
    }
}

impl Request {
    /// The controller that the request is for.
    pub fn controller_id(&self) -> (id: u32)
        ensures
            id == self@.controller_id(),
    {
        match self {
            Request::RequestControllerData { controller_id } => *controller_id,
            Request::ResizeZone { controller_id, .. } => *controller_id,
            Request::ClearSegments { controller_id } => *controller_id,
            Request::AddSegment { controller_id, .. } => *controller_id,
            Request::UpdateLeds { controller_id, .. } => *controller_id,
            Request::UpdateZoneLeds { controller_id, .. } => *controller_id,
            Request::UpdateSingleLed { controller_id, .. } => *controller_id,
            Request::UpdateMode { controller_id, .. } => *controller_id,
        }
    }

    /// The code that names the kind of the request in a message header.
    pub fn packet_id(&self) -> (id: u32)
        ensures
            id == self@.packet_id(),
    {
        match self {
            Request::RequestControllerData { .. } => 1,
            Request::ResizeZone { .. } => 1000,
            Request::ClearSegments { .. } => 1001,
            Request::AddSegment { .. } => 1002,
            Request::UpdateLeds { .. } => 1050,
            Request::UpdateZoneLeds { .. } => 1051,
            Request::UpdateSingleLed { .. } => 1052,
            Request::UpdateMode { .. } => 1101,
        }
    }
}

/// `body` behind the size of both together, which counts its own four bytes.
pub open spec fn spec_sized(body: Seq<u8>, protocol: u32) -> Seq<u8> {
    u32::spec_serialize((4 + body.len()) as u32, protocol) + body
}

impl RequestModel {
    /// What follows the size in the payload of a request that has one;
    /// the whole payload of a request that has none.
    pub open spec fn spec_body(self, protocol: u32) -> Seq<u8> {
        match self {
            RequestModel::RequestControllerData { .. } => if protocol >= 1 {
                u32::spec_serialize(protocol, protocol)
            } else {
                Seq::<u8>::empty()
            },
            RequestModel::ResizeZone { zone_id, new_size, .. } => u32::spec_serialize(
                zone_id,
                protocol,
            ) + u32::spec_serialize(new_size, protocol),
            RequestModel::ClearSegments { .. } => Seq::<u8>::empty(),
            RequestModel::AddSegment { zone_id, segment, .. } => u32::spec_serialize(
                zone_id,
                protocol,
            ) + SegmentData::spec_serialize(segment, protocol),
            RequestModel::UpdateLeds { colors, .. } => Vec::<Color>::spec_serialize(
                colors,
                protocol,
            ),
            RequestModel::UpdateZoneLeds { zone_id, colors, .. } => u32::spec_serialize(
                zone_id,
                protocol,
            ) + Vec::<Color>::spec_serialize(colors, protocol),
            RequestModel::UpdateSingleLed { led_id, color, .. } => i32::spec_serialize(
                led_id as i32,
                protocol,
            ) + Color::spec_serialize(color, protocol),
            RequestModel::UpdateMode { mode, .. } => i32::spec_serialize(
                mode.index as i32,
                protocol,
            ) + ModeData::spec_serialize(mode, protocol),
        }
    }

    /// Whether the payload of the request starts with its size.
    pub open spec fn is_sized(self) -> bool {
        self is AddSegment || self is UpdateLeds || self is UpdateZoneLeds || self is UpdateMode
    }

    /// The payload of the request at `protocol`: what follows the header of
    /// its message. To ask for a controller's data is to send the protocol
    /// version, from version 1 on. A resize names the zone and the size. A
    /// new segment, the colors of a controller or a zone, and a mode follow
    /// the size of the payload; the zone is named first where there is one,
    /// the mode follows its position. A single LED is named by its position,
    /// before its color.
    pub open spec fn spec_payload(self, protocol: u32) -> Seq<u8> {
        if self.is_sized() {
            spec_sized(self.spec_body(protocol), protocol)
        } else {
            self.spec_body(protocol)
        }
    }

    /// Whether the request can be spelled at `protocol`.
    pub open spec fn encodable(self, protocol: u32) -> bool {
        &&& match self {
            RequestModel::AddSegment { segment, .. } => SegmentData::encodable(segment, protocol),
            RequestModel::UpdateLeds { colors, .. } => colors.len() <= 0xFFFF,
            RequestModel::UpdateZoneLeds { colors, .. } => colors.len() <= 0xFFFF,
            RequestModel::UpdateSingleLed { led_id, .. } => led_id <= 0x7FFF_FFFF,
            RequestModel::UpdateMode { mode, .. } => mode.index <= 0x7FFF_FFFF
                && ModeData::encodable(mode, protocol),
            _ => true,
        }
        &&& self.is_sized() ==> 4 + self.spec_body(protocol).len() <= 0xFFFF_FFFF
    }
}

impl Request {
    /// What follows the size in the payload of a request that has one; the
    /// whole payload of a request that has none.
    fn body(&self, protocol: u32) -> (res: Result<WriteMessage, OpenRgbError>)
        ensures
            res is Ok <==> match self@ {
                RequestModel::AddSegment { segment, .. } => SegmentData::encodable(
                    segment,
                    protocol,
                ),
                RequestModel::UpdateLeds { colors, .. } => colors.len() <= 0xFFFF,
                RequestModel::UpdateZoneLeds { colors, .. } => colors.len() <= 0xFFFF,
                RequestModel::UpdateSingleLed { led_id, .. } => led_id <= 0x7FFF_FFFF,
                RequestModel::UpdateMode { mode, .. } => mode.index <= 0x7FFF_FFFF
                    && ModeData::encodable(mode, protocol),
                _ => true,
            },
            res matches Ok(body) ==> body.bytes() == self@.spec_body(protocol),
            res matches Err(e) ==> e == OpenRgbError::CommandError(CommandError::NotEncodable),
    {
        let mut body = WriteMessage::new(protocol);
        let ghost target = self@.spec_body(protocol);
        proof {
            assert(Seq::<u8>::empty() + target =~= target);
            crate::data::mode::lemma_color_models(Seq::<Color>::empty(), protocol);
        }
        match self {
            Request::RequestControllerData { .. } => {
                if protocol >= 1 {
                    body.write_u32(protocol);
                }
            },
            Request::ResizeZone { zone_id, new_size, .. } => {
                proof {
                    lemma_concat(
                        body.bytes(),
                        u32::spec_serialize(*zone_id, protocol),
                        u32::spec_serialize(*new_size, protocol),
                    );
                }
                body.write_u32(*zone_id);
                body.write_u32(*new_size);
            },
            Request::ClearSegments { .. } => {},
            Request::AddSegment { zone_id, segment, .. } => {
                proof {
                    lemma_concat(
                        body.bytes(),
                        u32::spec_serialize(*zone_id, protocol),
                        SegmentData::spec_serialize(segment@, protocol),
                    );
                }
                body.write_u32(*zone_id);
                body.write_value(segment)?;
            },
            Request::UpdateLeds { colors, .. } => {
                proof {
                    crate::data::mode::lemma_color_models(colors@, protocol);
                }
                body.write_value(colors)?;
            },
            Request::UpdateZoneLeds { zone_id, colors, .. } => {
                proof {
                    crate::data::mode::lemma_color_models(colors@, protocol);
                    lemma_concat(
                        body.bytes(),
                        u32::spec_serialize(*zone_id, protocol),
                        Vec::<Color>::spec_serialize(colors@, protocol),
                    );
                }
                body.write_u32(*zone_id);
                body.write_value(colors)?;
            },
            Request::UpdateSingleLed { led_id, color, .. } => {
                if *led_id > 0x7FFF_FFFF {
                    return Err(OpenRgbError::CommandError(CommandError::NotEncodable));
                }
                proof {
                    lemma_concat(
                        body.bytes(),
                        i32::spec_serialize(*led_id as i32, protocol),
                        Color::spec_serialize(*color, protocol),
                    );
                }
                body.write_i32(*led_id as i32);
                body.write_value(color)?;
            },
            Request::UpdateMode { mode, .. } => {
                if mode.index() > 0x7FFF_FFFF {
                    return Err(OpenRgbError::CommandError(CommandError::NotEncodable));
                }
                proof {
                    lemma_concat(
                        body.bytes(),
                        i32::spec_serialize(mode@.index as i32, protocol),
                        ModeData::spec_serialize(mode@, protocol),
                    );
                }
                body.write_i32(mode.index() as i32);
                body.write_value(mode)?;
            },
        }
        Ok(body)
    }

    /// Whether the payload of the request starts with its size.
    fn is_sized(&self) -> (res: bool)
        ensures
            res == self@.is_sized(),
    {
        match self {
            Request::AddSegment { .. } => true,
            Request::UpdateLeds { .. } => true,
            Request::UpdateZoneLeds { .. } => true,
            Request::UpdateMode { .. } => true,
            _ => false,
        }
    }

    /// The payload of the request at `protocol`. Fails with `NotEncodable`
    /// where the request cannot be spelled.
    pub fn payload(&self, protocol: u32) -> (res: Result<Vec<u8>, OpenRgbError>)
        ensures
            res is Ok <==> self@.encodable(protocol),
            res matches Ok(bytes) ==> bytes@ == self@.spec_payload(protocol),
            res matches Err(e) ==> e == OpenRgbError::CommandError(CommandError::NotEncodable),
    {
        let body = self.body(protocol)?;
        let mut out = WriteMessage::new(protocol);
        if self.is_sized() {
            if body.len() > 0xFFFF_FFFB {
                return Err(OpenRgbError::CommandError(CommandError::NotEncodable));
            }
            out.write_u32((body.len() + 4) as u32);
        }
        out.write_slice(body.as_bytes());
        proof {
            assert(out.bytes() =~= self@.spec_payload(protocol));
        }
        Ok(out.into_bytes())
    }
}

} // verus!

//! The record of a zone: a named run of LEDs of a controller.

use vstd::prelude::*;
use array2d::Array2D;
use crate::data::kinds::ZoneType;
use crate::data::matrix::MatrixModel;
use crate::data::segment::{SegmentData, SegmentModel};
use crate::error::{CommandError, OpenRgbError};
use crate::protocol::message::{ReceivedMessage, WriteMessage};
use crate::protocol::sequence::{spec_all_canonical, spec_models};
use crate::protocol::version::ProtocolOption;
use crate::protocol::wire::{lemma_concat, lemma_field, lemma_skips, lemma_step, DeserFromBuf,
    SerToBuf};

verus! {

/// A zone of a controller.
#[derive(Debug, Eq, PartialEq, Clone)]
pub struct ZoneData {
    id: usize,
    name: String,
    zone_type: ZoneType,
    leds_min: u32,
    leds_max: u32,
    leds_count: u32,
    matrix: Option<Array2D<u32>>,
    segments: ProtocolOption<4, Vec<SegmentData>>,
}

/// What a `ZoneData` stands for.
pub ghost struct ZoneModel {
    /// The position of the zone in its controller's list. It is not
    /// transmitted.
    pub id: usize,
    pub name: Seq<char>,
    pub zone_type: ZoneType,
    /// The fewest LEDs that the zone can be resized to.
    pub leds_min: u32,
    /// The most LEDs that the zone can be resized to.
    pub leds_max: u32,
    /// The number of LEDs that the zone has now.
    pub leds_count: u32,
    /// The two-dimensional map of the LEDs, where the device has one.
    pub matrix: Option<MatrixModel>,
    /// The segments, from protocol version 4 on.
    pub segments: Option<Seq<SegmentModel>>,
}

/// Whether each of `segments` lies inside a zone of `leds_count` LEDs.
pub open spec fn spec_segments_fit(segments: Seq<SegmentModel>, leds_count: u32) -> bool {
    forall|i: int| 0 <= i < segments.len() ==> (#[trigger] segments[i]).fits(leds_count)
}

/// `segments`, each at its position.
pub open spec fn spec_index_segments(segments: Seq<SegmentModel>) -> Seq<SegmentModel> {
    Seq::new(segments.len(), |i: int| segments[i].at(i as usize))
}

impl ZoneModel {
    /// This zone at position `id`.
    pub open spec fn at(self, id: usize) -> ZoneModel {
        ZoneModel { id, ..self }
    }

    /// Every segment lies inside the zone, and each is at its position.
    pub open spec fn well_formed(self) -> bool {
        self.segments matches Some(segments) ==> spec_segments_fit(segments, self.leds_count)
            && segments == spec_index_segments(segments)
    }
}

impl View for ZoneData {
    type V = ZoneModel;

    closed spec fn view(&self) -> ZoneModel {
        ZoneModel {
            id: self.id,
            name: self.name@,
            zone_type: self.zone_type,
            leds_min: self.leds_min,
            leds_max: self.leds_max,
            leds_count: self.leds_count,
            matrix: self.matrix.model(),
            segments: self.segments.model(),
        }
    }
}

/// Gives each segment its position, provided that all of them lie inside a
/// zone of `leds_count` LEDs; reports whether they do.
fn index_segments(segments: &mut Vec<SegmentData>, leds_count: u32) -> (fit: bool)
    ensures
        fit == spec_segments_fit(spec_models(old(segments)@), leds_count),
        fit ==> spec_models(final(segments)@) == spec_index_segments(spec_models(old(segments)@)),
{
    let mut i: usize = 0;
    while i < segments.len()
        invariant
            i <= segments.len(),
            segments.len() == old(segments).len(),
            forall|j: int| 0 <= j < i ==> (#[trigger] old(segments)[j])@.fits(leds_count),
            forall|j: int| 0 <= j < i ==> (#[trigger] segments[j])@ == old(segments)[j]@.at(j as usize),
            forall|j: int| i <= j < segments.len() ==> (#[trigger] segments[j]) == old(segments)[j],
        decreases segments.len() - i,
    {
        if !segments[i].fits(leds_count) {
            proof {
                assert(spec_models(old(segments)@)[i as int] == old(segments)[i as int]@);
            }
            return false;
        }
        segments[i].set_id(i);
        i += 1;
    }
    proof {
        assert forall|j: int| 0 <= j < old(segments).len() implies (#[trigger] spec_models(
            old(segments)@,
        )[j]).fits(leds_count) by {
            assert(old(segments)[j]@.fits(leds_count));
        }
        assert(spec_models(segments@) =~= spec_index_segments(spec_models(old(segments)@)));
    }
    true
}

/// Whether each of `segments` lies inside a zone of `leds_count` LEDs.
fn segments_fit(segments: &Vec<SegmentData>, leds_count: u32) -> (fit: bool)
    ensures
        fit == spec_segments_fit(spec_models(segments@), leds_count),
{
    let mut i: usize = 0;
    while i < segments.len()
        invariant
            i <= segments.len(),
            forall|j: int| 0 <= j < i ==> (#[trigger] segments[j])@.fits(leds_count),
        decreases segments.len() - i,
    {
        if !segments[i].fits(leds_count) {
            proof {
                assert(spec_models(segments@)[i as int] == segments[i as int]@);
            }
            return false;
        }
        i += 1;
    }
    proof {
        assert forall|j: int| 0 <= j < segments.len() implies (#[trigger] spec_models(
            segments@,
        )[j]).fits(leds_count) by {
            assert(segments[j]@.fits(leds_count));
        }
    }
    true
}

impl ZoneData {
    /// A zone without matrix, with the given segments where there are any, at
    /// position 0. Fails with `RangeOutOfBounds` for the first segment that
    /// does not lie inside the zone.
    pub fn new(
        name: String,
        zone_type: ZoneType,
        leds_min: u32,
        leds_max: u32,
        leds_count: u32,
        segments: Option<Vec<SegmentData>>,
    ) -> (res: Result<ZoneData, OpenRgbError>)
        ensures
            res is Ok <==> (segments matches Some(s) ==> spec_segments_fit(
                spec_models(s@),
                leds_count,
            )),
            res matches Ok(zone) ==> zone@ == (ZoneModel {
                id: 0,
                name: name@,
                zone_type,
                leds_min,
                leds_max,
                leds_count,
                matrix: None,
                segments: match segments {
                    Some(s) => Some(spec_index_segments(spec_models(s@))),
                    None => None,
                },
            }) && zone@.well_formed(),
            res matches Err(e) ==> e == OpenRgbError::CommandError(CommandError::SegmentOutOfZone),
    {
        let segments = match segments {
            Some(mut list) => {
                if !index_segments(&mut list, leds_count) {
                    return Err(OpenRgbError::CommandError(CommandError::SegmentOutOfZone));
                }
                proof {
                    lemma_indexed_segments(spec_models(segments->0@), leds_count);
                }
                ProtocolOption::Supported(list)
            },
            None => ProtocolOption::UnsupportedVersion,
        };
        Ok(
            ZoneData {
                id: 0,
                name,
                zone_type,
                leds_min,
                leds_max,
                leds_count,
                matrix: None,
                segments,
            },
        )
    }

    /// The position of the zone in its controller's list.
    pub fn id(&self) -> (id: usize)
        ensures
            id == self@.id,
    {
        self.id
    }

    /// The name of the zone.
    pub fn name(&self) -> (name: &str)
        ensures
            name@ == self@.name,
    {
        self.name.as_str()
    }

    /// The layout of the zone.
    pub fn zone_type(&self) -> (zone_type: ZoneType)
        ensures
            zone_type == self@.zone_type,
    {
        self.zone_type
    }

    /// The fewest LEDs that the zone can be resized to.
    pub fn leds_min(&self) -> (leds_min: usize)
        ensures
            leds_min == self@.leds_min,
    {
        self.leds_min as usize
    }

    /// The most LEDs that the zone can be resized to.
    pub fn leds_max(&self) -> (leds_max: usize)
        ensures
            leds_max == self@.leds_max,
    {
        self.leds_max as usize
    }

    /// The number of LEDs that the zone has now.
    pub fn leds_count(&self) -> (leds_count: usize)
        ensures
            leds_count == self@.leds_count,
    {
        self.leds_count as usize
    }

    /// The segments of the zone; `None` where the protocol version has none.
    pub fn segments(&self) -> (segments: Option<&[SegmentData]>)
        ensures
            segments is Some <==> self@.segments is Some,
            segments matches Some(s) ==> spec_models(s@) == self@.segments->0,
    {
        match &self.segments {
            ProtocolOption::Supported(list) => Some(list.as_slice()),
            ProtocolOption::UnsupportedVersion => None,
        }
    }

    /// The two-dimensional map of the LEDs, where the device has one.
    pub fn matrix(&self) -> (matrix: Option<&Array2D<u32>>)
        ensures
            matrix is Some <==> self@.matrix is Some,
            matrix matches Some(m) ==> crate::data::matrix::spec_matrix_model(*m)
                == self@.matrix->0,
    {
        self.matrix.as_ref()
    }

    /// Whether every segment lies inside the zone and is at its position.
    pub fn is_well_formed(&self) -> (res: bool)
        ensures
            res == self@.well_formed(),
    {
        match &self.segments {
            ProtocolOption::UnsupportedVersion => true,
            ProtocolOption::Supported(list) => {
                let ghost models = spec_models(list@);
                let mut i: usize = 0;
                while i < list.len()
                    invariant
                        i <= list.len(),
                        models == spec_models(list@),
                        self@.segments == Some(models),
                        self@.leds_count == self.leds_count,
                        forall|j: int|
                            0 <= j < i ==> (#[trigger] models[j]).fits(self.leds_count)
                                && models[j].id == j,
                    decreases list.len() - i,
                {
                    proof {
                        assert(models[i as int] == list[i as int]@);
                    }
                    if !list[i].fits(self.leds_count) || list[i].id() != i {
                        proof {
                            if models == spec_index_segments(models) {
                                assert(spec_index_segments(models)[i as int].id == i);
                            }
                            if spec_segments_fit(models, self.leds_count) {
                                assert(models[i as int].fits(self.leds_count));
                            }
                        }
                        return false;
                    }
                    i += 1;
                }
                proof {
                    assert(models =~= spec_index_segments(models));
                }
                true
            },
        }
    }

    /// Records the position of the zone in its controller's list.
    pub(crate) fn set_id(&mut self, id: usize)
        ensures
            final(self)@ == old(self)@.at(id),
    {
        self.id = id;
    }
}

/// Segments that were given their positions are at their positions, and lie
/// where they lay.
pub proof fn lemma_indexed_segments(segments: Seq<SegmentModel>, leds_count: u32)
    requires
        spec_segments_fit(segments, leds_count),
    ensures
        spec_segments_fit(spec_index_segments(segments), leds_count),
        spec_index_segments(spec_index_segments(segments)) == spec_index_segments(segments),
        forall|protocol: u32|
            spec_index_segments(#[trigger] spec_all_canonical::<SegmentData>(segments, protocol))
                == spec_index_segments(segments),
        forall|protocol: u32|
            spec_segments_fit(
                #[trigger] spec_all_canonical::<SegmentData>(segments, protocol),
                leds_count,
            ),
{
    let indexed = spec_index_segments(segments);
    assert forall|i: int| 0 <= i < indexed.len() implies (#[trigger] indexed[i]).fits(
        leds_count,
    ) by {
        assert(segments[i].fits(leds_count));
    }
    assert(spec_index_segments(indexed) =~= indexed);
    assert forall|protocol: u32|
        spec_index_segments(#[trigger] spec_all_canonical::<SegmentData>(segments, protocol))
            == indexed && spec_segments_fit(
            spec_all_canonical::<SegmentData>(segments, protocol),
            leds_count,
        ) by {
        let plain = spec_all_canonical::<SegmentData>(segments, protocol);
        assert(spec_index_segments(plain) =~= indexed);
        assert forall|i: int| 0 <= i < plain.len() implies (#[trigger] plain[i]).fits(
            leds_count,
        ) by {
            assert(segments[i].fits(leds_count));
        }
    }
}

impl DeserFromBuf for ZoneData {
    type Model = ZoneModel;

    open spec fn model(&self) -> ZoneModel {
        self@
    }

    /// The name, the code of the layout, the fewest, the most and the current
    /// number of LEDs, the matrix block, and from protocol version 4 on the
    /// segments, each of which must lie inside the zone. The position of the
    /// zone is decoded as 0, that of each segment as its place in the list.
    open spec fn spec_deserialize(bytes: Seq<u8>, protocol: u32) -> Option<(ZoneModel, int)> {
        let name = String::spec_deserialize(bytes, protocol);
        let b1 = bytes.skip((name->0).1);
        let zone_type = u32::spec_deserialize(b1, protocol);
        let b2 = b1.skip((zone_type->0).1);
        let leds_min = u32::spec_deserialize(b2, protocol);
        let b3 = b2.skip((leds_min->0).1);
        let leds_max = u32::spec_deserialize(b3, protocol);
        let b4 = b3.skip((leds_max->0).1);
        let leds_count = u32::spec_deserialize(b4, protocol);
        let b5 = b4.skip((leds_count->0).1);
        let matrix = Option::<Array2D<u32>>::spec_deserialize(b5, protocol);
        let b6 = b5.skip((matrix->0).1);
        let segments = ProtocolOption::<4, Vec<SegmentData>>::spec_deserialize(b6, protocol);
        if name is Some && zone_type is Some && leds_min is Some && leds_max is Some
            && leds_count is Some && matrix is Some && segments is Some && ((
        segments->0).0 matches Some(s) ==> spec_segments_fit(s, (leds_count->0).0)) {
            Some(
                (
                    ZoneModel {
                        id: 0,
                        name: (name->0).0,
                        zone_type: ZoneType::spec_from_code((zone_type->0).0),
                        leds_min: (leds_min->0).0,
                        leds_max: (leds_max->0).0,
                        leds_count: (leds_count->0).0,
                        matrix: (matrix->0).0,
                        segments: match (segments->0).0 {
                            Some(s) => Some(spec_index_segments(s)),
                            None => None,
                        },
                    },
                    (name->0).1 + (zone_type->0).1 + (leds_min->0).1 + (leds_max->0).1 + (
                    leds_count->0).1 + (matrix->0).1 + (segments->0).1,
                ),
            )
        } else {
            None
        }
    }

    proof fn lemma_deserialize_len(bytes: Seq<u8>, protocol: u32) {
        if Self::spec_deserialize(bytes, protocol) is Some {
            lemma_zone_layout(bytes, protocol);
        }
    }

    fn deserialize(buf: &mut ReceivedMessage<'_>) -> (res: Result<ZoneData, OpenRgbError>) {
        let mut cur = *buf;
        let ghost bytes = cur.remaining();
        let ghost protocol = cur.protocol_version();
        let name = cur.read_value::<String>()?;
        let zone_type = cur.read_value::<u32>()?;
        let leds_min = cur.read_value::<u32>()?;
        let leds_max = cur.read_value::<u32>()?;
        let leds_count = cur.read_value::<u32>()?;
        let matrix = cur.read_value::<Option<Array2D<u32>>>()?;
        let mut segments = cur.read_value::<ProtocolOption<4, Vec<SegmentData>>>()?;
        let fit = match &mut segments {
            ProtocolOption::Supported(list) => index_segments(list, leds_count),
            ProtocolOption::UnsupportedVersion => true,
        };
        if !fit {
            return Err(OpenRgbError::MalformedMessage);
        }
        proof {
            lemma_zone_layout(bytes, protocol);
            lemma_skips(bytes);
        }
        *buf = cur;
        Ok(
            ZoneData {
                id: 0,
                name,
                zone_type: ZoneType::from_code(zone_type),
                leds_min,
                leds_max,
                leds_count,
                matrix,
                segments,
            },
        )
    }
}

/// The fields of a zone end inside the bytes they were decoded from.
pub proof fn lemma_zone_layout(bytes: Seq<u8>, protocol: u32)
    requires
        ZoneData::spec_deserialize(bytes, protocol) is Some,
    ensures
        ({
            let n0 = (String::spec_deserialize(bytes, protocol)->0).1;
            let n1 = (Option::<Array2D<u32>>::spec_deserialize(
                bytes.skip(n0 + 16),
                protocol,
            )->0).1;
            let n2 = (ProtocolOption::<4, Vec<SegmentData>>::spec_deserialize(
                bytes.skip(n0 + 16 + n1),
                protocol,
            )->0).1;
            &&& 0 <= n0
            &&& 0 <= n1
            &&& 0 <= n2
            &&& (ZoneData::spec_deserialize(bytes, protocol)->0).1 == n0 + 16 + n1 + n2
            &&& n0 + 16 + n1 + n2 <= bytes.len()
        }),
{
    let n0 = (String::spec_deserialize(bytes, protocol)->0).1;
    String::lemma_deserialize_len(bytes, protocol);
    lemma_step::<u32>(bytes, n0, protocol);
    lemma_step::<u32>(bytes, n0 + 4, protocol);
    lemma_step::<u32>(bytes, n0 + 8, protocol);
    lemma_step::<u32>(bytes, n0 + 12, protocol);
    lemma_step::<Option<Array2D<u32>>>(bytes, n0 + 16, protocol);
    let n1 = (Option::<Array2D<u32>>::spec_deserialize(bytes.skip(n0 + 16), protocol)->0).1;
    lemma_step::<ProtocolOption<4, Vec<SegmentData>>>(bytes, n0 + 16 + n1, protocol);
}

impl SerToBuf for ZoneData {
    open spec fn spec_serialize(m: ZoneModel, protocol: u32) -> Seq<u8> {
        String::spec_serialize(m.name, protocol) + (u32::spec_serialize(
            m.zone_type.spec_code(),
            protocol,
        ) + (u32::spec_serialize(m.leds_min, protocol) + (u32::spec_serialize(
            m.leds_max,
            protocol,
        ) + (u32::spec_serialize(m.leds_count, protocol) + (Option::<
            Array2D<u32>,
        >::spec_serialize(m.matrix, protocol) + ProtocolOption::<
            4,
            Vec<SegmentData>,
        >::spec_serialize(m.segments, protocol))))))
    }

    /// The name and the matrix can be spelled, and from protocol version 4 on
    /// the segments are there, can be spelled, and lie inside the zone.
    open spec fn encodable(m: ZoneModel, protocol: u32) -> bool {
        &&& String::encodable(m.name, protocol)
        &&& Option::<Array2D<u32>>::encodable(m.matrix, protocol)
        &&& ProtocolOption::<4, Vec<SegmentData>>::encodable(m.segments, protocol)
        &&& protocol >= 4 ==> spec_segments_fit(m.segments->0, m.leds_count)
    }

    /// The zone at position 0, its layout named by its code, with the
    /// segments, each at its place in the list, from protocol version 4 on
    /// and without them below.
    open spec fn canonical(m: ZoneModel, protocol: u32) -> ZoneModel {
        ZoneModel {
            id: 0,
            zone_type: ZoneType::spec_from_code(m.zone_type.spec_code()),
            segments: if protocol >= 4 && m.segments is Some {
                Some(spec_index_segments(m.segments->0))
            } else {
                None
            },
            ..m
        }
    }

    proof fn lemma_round_trip(m: ZoneModel, protocol: u32, rest: Seq<u8>) {
        let f0 = String::spec_serialize(m.name, protocol);
        let f1 = u32::spec_serialize(m.zone_type.spec_code(), protocol);
        let f2 = u32::spec_serialize(m.leds_min, protocol);
        let f3 = u32::spec_serialize(m.leds_max, protocol);
        let f4 = u32::spec_serialize(m.leds_count, protocol);
        let f5 = Option::<Array2D<u32>>::spec_serialize(m.matrix, protocol);
        let f6 = ProtocolOption::<4, Vec<SegmentData>>::spec_serialize(m.segments, protocol);
        let t6 = f6 + rest;
        let t5 = f5 + t6;
        let t4 = f4 + t5;
        let t3 = f3 + t4;
        let t2 = f2 + t3;
        let t1 = f1 + t2;
        lemma_field::<String>(m.name, protocol, t1);
        lemma_field::<u32>(m.zone_type.spec_code(), protocol, t2);
        lemma_field::<u32>(m.leds_min, protocol, t3);
        lemma_field::<u32>(m.leds_max, protocol, t4);
        lemma_field::<u32>(m.leds_count, protocol, t5);
        lemma_field::<Option<Array2D<u32>>>(m.matrix, protocol, t6);
        lemma_field::<ProtocolOption<4, Vec<SegmentData>>>(m.segments, protocol, rest);
        lemma_concat(f5, f6, rest);
        lemma_concat(f4, f5 + f6, rest);
        lemma_concat(f3, f4 + (f5 + f6), rest);
        lemma_concat(f2, f3 + (f4 + (f5 + f6)), rest);
        lemma_concat(f1, f2 + (f3 + (f4 + (f5 + f6))), rest);
        lemma_concat(f0, f1 + (f2 + (f3 + (f4 + (f5 + f6)))), rest);
        if protocol >= 4 {
            lemma_indexed_segments(m.segments->0, m.leds_count);
        }
    }

    proof fn lemma_decoded_is_canonical(bytes: Seq<u8>, protocol: u32) {
        if let Some((zone, _)) = Self::spec_deserialize(bytes, protocol) {
            let n0 = (String::spec_deserialize(bytes, protocol)->0).1;
            let code = (u32::spec_deserialize(bytes.skip(n0), protocol)->0).0;
            crate::data::kinds::lemma_codes_are_kept(code);
            lemma_decoded_zone_well_formed(bytes, protocol);
        }
    }

    fn serialize(&self, buf: &mut WriteMessage) -> (res: Result<(), OpenRgbError>) {
        let protocol = buf.protocol_version();
        if protocol >= 4 {
            let fit = match &self.segments {
                ProtocolOption::Supported(list) => segments_fit(list, self.leds_count),
                ProtocolOption::UnsupportedVersion => false,
            };
            if !fit {
                return Err(OpenRgbError::CommandError(CommandError::NotEncodable));
            }
        }
        let mut tail = WriteMessage::new(protocol);
        self.matrix.serialize(&mut tail)?;
        self.segments.serialize(&mut tail)?;
        let ghost f1 = u32::spec_serialize(self@.zone_type.spec_code(), protocol);
        let ghost f2 = u32::spec_serialize(self@.leds_min, protocol);
        let ghost f3 = u32::spec_serialize(self@.leds_max, protocol);
        let ghost f4 = u32::spec_serialize(self@.leds_count, protocol);
        let ghost f5 = Option::<Array2D<u32>>::spec_serialize(self@.matrix, protocol);
        let ghost f6 = ProtocolOption::<4, Vec<SegmentData>>::spec_serialize(
            self@.segments,
            protocol,
        );
        let ghost t5 = f5 + f6;
        let ghost t4 = f4 + t5;
        let ghost t3 = f3 + t4;
        let ghost t2 = f2 + t3;
        let ghost t1 = f1 + t2;
        proof {
            assert(tail.bytes() =~= t5);
            lemma_concat(buf.bytes(), String::spec_serialize(self@.name, protocol), t1);
        }
        self.name.serialize(buf)?;
        proof {
            lemma_concat(buf.bytes(), f1, t2);
        }
        buf.write_u32(self.zone_type.code());
        proof {
            lemma_concat(buf.bytes(), f2, t3);
        }
        buf.write_u32(self.leds_min);
        proof {
            lemma_concat(buf.bytes(), f3, t4);
        }
        buf.write_u32(self.leds_max);
        proof {
            lemma_concat(buf.bytes(), f4, t5);
        }
        buf.write_u32(self.leds_count);
        buf.write_slice(tail.as_bytes());
        Ok(())
    }
}

/// Every decoded zone is well formed.
pub proof fn lemma_decoded_zone_well_formed(bytes: Seq<u8>, protocol: u32)
    ensures
        ZoneData::spec_deserialize(bytes, protocol) matches Some((zone, _)) ==> zone.well_formed()
            && zone.id == 0,
{
    if let Some((zone, _)) = ZoneData::spec_deserialize(bytes, protocol) {
        if let Some(segments) = zone.segments {
            let n0 = (String::spec_deserialize(bytes, protocol)->0).1;
            let b5 = bytes.skip(n0).skip(4).skip(4).skip(4).skip(4);
            let n5 = (Option::<Array2D<u32>>::spec_deserialize(b5, protocol)->0).1;
            let decoded = ProtocolOption::<4, Vec<SegmentData>>::spec_deserialize(
                b5.skip(n5),
                protocol,
            );
            lemma_indexed_segments((decoded->0).0->0, zone.leds_count);
        }
    }
}

} // verus!

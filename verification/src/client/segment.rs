//! The view of a segment of a zone.

use vstd::prelude::*;
use vstd::pervasive::unreached;
use crate::client::command::{spec_assign_run, Command};
use crate::client::request::{Request, RequestModel};
use crate::client::zone::{spec_pad_colors, Zone};
use crate::data::color::Color;
use crate::data::segment::{SegmentData, SegmentModel};
use crate::error::{CommandError, OpenRgbError};
use crate::protocol::sequence::spec_models;

verus! {

/// A segment of a zone: a run of LEDs inside the zone.
#[derive(Debug, Clone, Copy, PartialEq, Eq)]
pub struct Segment<'a> {
    zone: Zone<'a>,
    segment_id: usize,
}

impl<'a> Segment<'a> {
    #[verifier::type_invariant]
    spec fn present(self) -> bool {
        self.zone.spec_data().segments is Some && self.segment_id
            < self.zone.spec_data().segments->0.len()
    }

    /// The segment of `zone` at position `segment_id`.
    pub closed spec fn spec_new(zone: Zone<'a>, segment_id: usize) -> Segment<'a> {
        Segment { zone, segment_id }
    }

    /// The zone of the segment.
    pub closed spec fn spec_zone(&self) -> Zone<'a> {
        self.zone
    }

    /// The position of the segment among the segments of its zone.
    pub closed spec fn spec_segment_id(&self) -> usize {
        self.segment_id
    }

    /// The record of the segment.
    pub open spec fn spec_data(&self) -> SegmentModel {
        self.spec_zone().spec_data().segments->0[self.spec_segment_id() as int]
    }

    /// Whether this is the segment of `zone` at position `segment_id`.
    pub open spec fn spec_is(&self, zone: Zone<'a>, segment_id: usize) -> bool {
        &&& *self == Segment::spec_new(zone, segment_id)
        &&& self.spec_zone() == zone
        &&& self.spec_segment_id() == segment_id
    }

    /// The segment of a zone at a position is at that position, of that
    /// zone.
    pub proof fn lemma_spec_new(zone: Zone<'a>, segment_id: usize)
        ensures
            Segment::spec_new(zone, segment_id).spec_is(zone, segment_id),
    {
    }

    /// A view is the segment at its position in its zone, and nothing more.
    pub proof fn lemma_spec_is(self)
        ensures
            self.spec_is(self.spec_zone(), self.spec_segment_id()),
    {
    }

    /// The segment of `zone` at position `segment_id`.
    pub(crate) fn new(zone: Zone<'a>, segment_id: usize) -> (segment: Segment<'a>)
        requires
            zone.spec_data().segments is Some,
            segment_id < zone.spec_data().segments->0.len(),
        ensures
            segment.spec_is(zone, segment_id),
    {
        Segment { zone, segment_id }
    }

    /// The record of the segment.
    fn data(&self) -> (data: &'a SegmentData)
        ensures
            data@ == self.spec_data(),
            data@.fits(self.spec_zone().spec_data().leds_count),
            self.spec_zone().spec_data().segments is Some,
            self.spec_segment_id() < self.spec_zone().spec_data().segments->0.len(),
    {
        proof {
            use_type_invariant(self);
        }
        match self.zone.segment_data() {
            Some(segments) => {
                assert(spec_models(segments@)[self.segment_id as int]
                    == segments[self.segment_id as int]@);
                &segments[self.segment_id]
            },
            None => unreached(),
        }
    }

    /// The position of the segment among the segments of its zone.
    pub fn segment_id(&self) -> (id: usize)
        ensures
            id == self.spec_segment_id(),
    {
        self.segment_id
    }

    /// The id of the controller of the segment's zone.
    pub fn controller_id(&self) -> (id: usize)
        ensures
            id == self.spec_zone().spec_controller()@.id,
    {
        self.zone.controller_id()
    }

    /// The position of the segment's zone among the zones of its controller.
    pub fn zone_id(&self) -> (id: usize)
        ensures
            id == self.spec_zone().spec_zone_id(),
    {
        self.zone.zone_id()
    }

    /// The name of the segment.
    pub fn name(&self) -> (name: &'a str)
        ensures
            name@ == self.spec_data().name,
    {
        self.data().name()
    }

    /// The number of LEDs in the segment.
    pub fn num_leds(&self) -> (num_leds: usize)
        ensures
            num_leds == self.spec_data().led_count,
    {
        self.data().led_count() as usize
    }

    /// The position of the segment's first LED among the LEDs of its zone.
    /// The segment ends inside the zone.
    pub fn offset(&self) -> (offset: usize)
        ensures
            offset == self.spec_data().offset,
            self.spec_data().fits(self.spec_zone().spec_data().leds_count),
    {
        self.data().offset() as usize
    }

    /// An empty command for the controller of the segment's zone.
    pub fn cmd(&self) -> (cmd: Command<'a>)
        ensures
            cmd.controller() == self.spec_zone().spec_controller(),
            cmd.pending() == Map::<int, Color>::empty(),
    {
        self.zone.cmd()
    }

    /// A command for the controller of the segment's zone that assigns
    /// `colors` to the LEDs of the segment, from its first LED on. Fails with
    /// `RangeOutOfBounds` where there are more colors than LEDs in the
    /// segment.
    pub fn cmd_with_set_leds(&self, colors: &[Color]) -> (res: Result<Command<'a>, OpenRgbError>)
        ensures
            res is Ok <==> colors@.len() <= self.spec_data().led_count,
            res matches Ok(cmd) ==> cmd.controller() == self.spec_zone().spec_controller()
                && cmd.pending() == spec_assign_run(
                Map::<int, Color>::empty(),
                self.spec_zone().spec_offset() + self.spec_data().offset,
                colors@,
            ),
            res matches Err(e) ==> e == OpenRgbError::CommandError(
                CommandError::RangeOutOfBounds {
                    start: 0,
                    count: colors@.len() as usize,
                    len: self.spec_data().led_count as usize,
                },
            ),
    {
        proof {
            use_type_invariant(self);
        }
        let mut cmd = self.cmd();
        cmd.set_segment_leds(self.zone.zone_id(), self.segment_id, colors)?;
        Ok(cmd)
    }

    /// The request that sets the LED at position `idx` of the segment to
    /// `color`. Fails with `IndexOutOfBounds` where the segment has no such
    /// LED.
    pub fn set_led(&self, idx: usize, color: Color) -> (res: Result<Request, OpenRgbError>)
        ensures
            res is Ok <==> idx < self.spec_data().led_count,
            res matches Ok(request) ==> request@ == (RequestModel::UpdateSingleLed {
                controller_id: self.spec_zone().spec_controller()@.id,
                led_id: (self.spec_zone().spec_offset() + self.spec_data().offset + idx) as usize,
                color,
            }),
            res matches Err(e) ==> e == OpenRgbError::CommandError(
                CommandError::IndexOutOfBounds {
                    index: idx,
                    len: self.spec_data().led_count as usize,
                },
            ),
    {
        let len = self.num_leds();
        if idx >= len {
            return Err(
                OpenRgbError::CommandError(CommandError::IndexOutOfBounds { index: idx, len }),
            );
        }
        let offset = self.offset();
        self.zone.set_led(offset + idx, color)
    }

    /// The request that sets every LED of the segment to `color`. It sets
    /// every other LED of the zone to black. It cannot fail: the segment ends
    /// inside the zone.
    pub fn set_all_leds(&self, color: Color) -> (request: Request)
        ensures
            request@ == (RequestModel::UpdateZoneLeds {
                controller_id: self.spec_zone().spec_controller()@.id,
                zone_id: self.spec_zone().spec_zone_id() as u32,
                colors: spec_pad_colors(
                    Seq::new(
                        (self.spec_data().offset + self.spec_data().led_count) as nat,
                        |i: int|
                            if i < self.spec_data().offset {
                                Color::spec_black()
                            } else {
                                color
                            },
                    ),
                    self.spec_zone().spec_data().leds_count as nat,
                ),
            }),
    {
        let offset = self.offset();
        let len = self.num_leds();
        let mut colors: Vec<Color> = Vec::new();
        let mut i: usize = 0;
        while i < offset
            invariant
                i <= offset,
                colors@.len() == i,
                forall|j: int| 0 <= j < i ==> colors@[j] == Color::spec_black(),
            decreases offset - i,
        {
            colors.push(Color::black());
            i += 1;
        }
        let mut k: usize = 0;
        while k < len
            invariant
                k <= len,
                offset <= 0xFFFF_FFFF,
                len <= 0xFFFF_FFFF,
                colors@.len() == offset + k,
                forall|j: int|
                    0 <= j < offset + k ==> colors@[j] == if j < offset {
                        Color::spec_black()
                    } else {
                        color
                    },
            decreases len - k,
        {
            colors.push(color);
            k += 1;
        }
        proof {
            assert(colors@ =~= Seq::new(
                (offset + len) as nat,
                |i: int|
                    if i < offset {
                        Color::spec_black()
                    } else {
                        color
                    },
            ));
        }
        match self.zone.set_leds(colors.as_slice()) {
            Ok(request) => request,
            Err(_) => unreached(),
        }
    }
}

} // verus!

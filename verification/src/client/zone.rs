//! The view of a zone of a controller.

use vstd::prelude::*;
use array2d::Array2D;
use crate::client::command::Command;
use crate::client::controller::Controller;
use crate::client::led::Led;
use crate::client::request::{Request, RequestModel};
use crate::client::segment::Segment;
use crate::data::color::Color;
use crate::data::controller::{spec_zone_offset, ControllerModel};
use crate::data::kinds::ZoneType;
use crate::data::matrix::spec_matrix_model;
use crate::data::segment::{SegmentData, SegmentModel};
use crate::data::zone::{ZoneData, ZoneModel};
use crate::error::{CommandError, OpenRgbError};
use crate::protocol::sequence::spec_models;

verus! {

/// The number of LEDs of the zone at position `zone` for which the controller
/// has a record: its list of records may end before the zone does.
pub open spec fn spec_zone_led_records(controller: ControllerModel, zone: int) -> nat {
    let offset = spec_zone_offset(controller.zones, zone);
    let count = controller.zones[zone].leds_count as nat;
    if controller.leds.len() <= offset {
        0
    } else if controller.leds.len() >= offset + count {
        count
    } else {
        (controller.leds.len() - offset) as nat
    }
}

/// `colors`, followed by as many times black as are missing to `len`.
pub open spec fn spec_pad_colors(colors: Seq<Color>, len: nat) -> Seq<Color> {
    if colors.len() >= len {
        colors
    } else {
        Seq::new(
            len,
            |i: int|
                if i < colors.len() {
                    colors[i]
                } else {
                    Color::spec_black()
                },
        )
    }
}

/// A zone of a controller: a run of LEDs of its own, which may hold segments.
#[derive(Debug, Clone, Copy, PartialEq, Eq)]
pub struct Zone<'c> {
    controller: &'c Controller,
    zone_id: usize,
}

impl<'c> Zone<'c> {
    #[verifier::type_invariant]
    spec fn present(self) -> bool {
        self.zone_id < self.controller@.zones.len()
    }

    /// The zone of `controller` at position `zone_id`.
    pub closed spec fn spec_new(controller: &'c Controller, zone_id: usize) -> Zone<'c> {
        Zone { controller, zone_id }
    }

    /// The controller of the zone.
    pub closed spec fn spec_controller(&self) -> &'c Controller {
        self.controller
    }

    /// The position of the zone among the zones of its controller.
    pub closed spec fn spec_zone_id(&self) -> usize {
        self.zone_id
    }

    /// The record of the zone.
    pub open spec fn spec_data(&self) -> ZoneModel {
        self.spec_controller()@.zones[self.spec_zone_id() as int]
    }

    /// The position of the zone's first LED among the LEDs of its
    /// controller.
    pub open spec fn spec_offset(&self) -> nat {
        spec_zone_offset(self.spec_controller()@.zones, self.spec_zone_id() as int)
    }

    /// Whether this is the zone of `controller` at position `zone_id`.
    pub open spec fn spec_is(&self, controller: &'c Controller, zone_id: usize) -> bool {
        &&& *self == Zone::spec_new(controller, zone_id)
        &&& self.spec_controller() == controller
        &&& self.spec_zone_id() == zone_id
    }

    /// The zone of a controller at a position is at that position, of that
    /// controller.
    pub proof fn lemma_spec_new(controller: &'c Controller, zone_id: usize)
        ensures
            Zone::spec_new(controller, zone_id).spec_is(controller, zone_id),
    {
    }

    /// A view is the zone at its position in its controller, and nothing
    /// more.
    pub proof fn lemma_spec_is(self)
        ensures
            self.spec_is(self.spec_controller(), self.spec_zone_id()),
    {
    }

    /// The zone of `controller` at position `zone_id`.
    pub(crate) fn new(controller: &'c Controller, zone_id: usize) -> (zone: Zone<'c>)
        requires
            zone_id < controller@.zones.len(),
        ensures
            zone.spec_is(controller, zone_id),
    {
        Zone { controller, zone_id }
    }

    /// The record of the zone.
    fn data(&self) -> (data: &'c ZoneData)
        ensures
            data@ == self.spec_data(),
            self.spec_zone_id() < self.spec_controller()@.zones.len(),
            data@.id == self.spec_zone_id(),
            data@.well_formed(),
    {
        proof {
            use_type_invariant(self);
        }
        let zones = self.controller.zone_data();
        let snapshot = self.controller.data();
        assert(snapshot@.zones == spec_models(zones@));
        assert(spec_models(zones@)[self.zone_id as int] == zones[self.zone_id as int]@);
        assert(self.controller@.zones[self.zone_id as int].well_formed());
        assert(crate::data::controller::spec_index_zones(
            self.controller@.zones,
        )[self.zone_id as int].id == self.zone_id);
        &zones[self.zone_id]
    }

    /// The id of the controller of the zone.
    pub fn controller_id(&self) -> (id: usize)
        ensures
            id == self.spec_controller()@.id,
    {
        self.controller.id()
    }

    /// The position of the zone among the zones of its controller.
    pub fn zone_id(&self) -> (id: usize)
        ensures
            id == self.spec_zone_id(),
            id == self.spec_data().id,
            id < self.spec_controller()@.zones.len(),
            self.spec_data().well_formed(),
    {
        self.data().id()
    }

    /// The position of the zone as requests name it.
    fn request_id(&self) -> (id: u32)
        ensures
            id == self.spec_zone_id(),
    {
        proof {
            use_type_invariant(self);
        }
        let snapshot = self.controller.data();
        assert(snapshot@.zones.len() <= 0xFFFF);
        self.zone_id as u32
    }

    /// The position of the zone among the zones of its controller.
    pub fn id(&self) -> (id: usize)
        ensures
            id == self.spec_zone_id(),
    {
        self.zone_id
    }

    /// The name of the zone.
    pub fn name(&self) -> (name: &'c str)
        ensures
            name@ == self.spec_data().name,
    {
        self.data().name()
    }

    /// The layout of the zone.
    pub fn zone_type(&self) -> (zone_type: ZoneType)
        ensures
            zone_type == self.spec_data().zone_type,
    {
        self.data().zone_type()
    }

    /// The fewest LEDs that the zone can be resized to.
    pub fn leds_min(&self) -> (leds_min: usize)
        ensures
            leds_min == self.spec_data().leds_min,
    {
        self.data().leds_min()
    }

    /// The most LEDs that the zone can be resized to.
    pub fn leds_max(&self) -> (leds_max: usize)
        ensures
            leds_max == self.spec_data().leds_max,
    {
        self.data().leds_max()
    }

    /// The number of LEDs in the zone.
    pub fn num_leds(&self) -> (num_leds: usize)
        ensures
            num_leds == self.spec_data().leds_count,
    {
        self.data().leds_count()
    }

    /// The records of the segments of the zone; `None` where the protocol
    /// version has none.
    pub fn segment_data(&self) -> (segments: Option<&'c [SegmentData]>)
        ensures
            segments is Some <==> self.spec_data().segments is Some,
            segments matches Some(s) ==> spec_models(s@) == self.spec_data().segments->0,
            self.spec_data().well_formed(),
    {
        self.data().segments()
    }

    /// The two-dimensional map of the LEDs, where the device has one.
    pub fn matrix_data(&self) -> (matrix: Option<&'c Array2D<u32>>)
        ensures
            matrix is Some <==> self.spec_data().matrix is Some,
            matrix matches Some(m) ==> spec_matrix_model(*m) == self.spec_data().matrix->0,
    {
        self.data().matrix()
    }

    /// The segment at position `segment_id`. Fails with `SegmentsUnsupported`
    /// where the snapshot has no segments, and with `IndexOutOfBounds` where
    /// the zone has no such segment.
    pub fn get_segment(&self, segment_id: usize) -> (res: Result<Segment<'c>, OpenRgbError>)
        ensures
            res is Ok <==> self.spec_data().segments is Some && segment_id
                < self.spec_data().segments->0.len(),
            res matches Ok(segment) ==> segment.spec_is(*self, segment_id),
            res matches Err(e) ==> e == self.spec_controller()@.segment_error(
                self.spec_zone_id(),
                segment_id,
            ),
    {
        proof {
            use_type_invariant(self);
        }
        let segments = match self.segment_data() {
            Some(segments) => segments,
            None => {
                return Err(OpenRgbError::CommandError(CommandError::SegmentsUnsupported));
            },
        };
        if segment_id >= segments.len() {
            return Err(
                OpenRgbError::CommandError(
                    CommandError::IndexOutOfBounds { index: segment_id, len: segments.len() },
                ),
            );
        }
        Ok(Segment::new(*self, segment_id))
    }

    /// The segments of the zone, in order; none where the snapshot has no
    /// segments.
    pub fn segment_iter(&self) -> (segments: Vec<Segment<'c>>)
        ensures
            segments@.len() == match self.spec_data().segments {
                Some(s) => s.len(),
                None => 0,
            },
            forall|i: int|
                0 <= i < segments@.len() ==> (#[trigger] segments@[i]).spec_is(*self, i as usize),
    {
        let mut out: Vec<Segment<'c>> = Vec::new();
        let count = match self.segment_data() {
            Some(segments) => segments.len(),
            None => 0,
        };
        let mut i: usize = 0;
        while i < count
            invariant
                i <= count,
                out@.len() == i,
                count == match self.spec_data().segments {
                    Some(s) => s.len(),
                    None => 0,
                },
                forall|j: int| 0 <= j < i ==> (#[trigger] out@[j]).spec_is(*self, j as usize),
            decreases count - i,
        {
            out.push(Segment::new(*self, i));
            i += 1;
        }
        out
    }

    /// The position of the zone's first LED among the LEDs of its
    /// controller: the sum of the LED counts of the zones before it.
    pub fn offset(&self) -> (offset: usize)
        ensures
            offset == self.spec_offset(),
            offset + self.spec_data().leds_count <= self.spec_controller()@.num_leds,
    {
        proof {
            use_type_invariant(self);
        }
        match self.controller.get_zone_led_offset(self.zone_id) {
            Ok(offset) => offset,
            Err(_) => 0,
        }
    }

    /// The LEDs of the zone for which the controller has a record, in order.
    pub fn led_iter(&self) -> (leds: Vec<Led<'c>>)
        ensures
            leds@.len() == spec_zone_led_records(
                self.spec_controller()@,
                self.spec_zone_id() as int,
            ),
            forall|i: int|
                0 <= i < leds@.len() ==> (#[trigger] leds@[i]).spec_is(
                    (self.spec_offset() + i) as usize,
                    self.spec_controller(),
                ),
    {
        let offset = self.offset();
        let count = self.num_leds();
        let records = self.controller.led_data().len();
        let total: usize = self.controller.num_leds();
        let known = if records <= offset {
            0
        } else if records - offset >= count {
            count
        } else {
            records - offset
        };
        let mut leds: Vec<Led<'c>> = Vec::new();
        let mut i: usize = 0;
        while i < known
            invariant
                i <= known,
                known == 0 || offset + known <= records,
                known == 0 || offset + known <= total,
                records == self.controller@.leds.len(),
                total == self.controller@.colors.len(),
                leds@.len() == i,
                forall|j: int|
                    0 <= j < i ==> (#[trigger] leds@[j]).spec_is(
                        (offset + j) as usize,
                        self.controller,
                    ),
            decreases known - i,
        {
            leds.push(Led::new(offset + i, self.controller));
            i += 1;
        }
        leds
    }

    /// An empty command for the controller of the zone.
    pub fn cmd(&self) -> (cmd: Command<'c>)
        ensures
            cmd.controller() == self.spec_controller(),
            cmd.pending() == Map::<int, Color>::empty(),
    {
        Command::new(self.controller)
    }

    /// A command for the controller of the zone that assigns to each LED of
    /// the zone for which the controller has a record the color that
    /// `led_clr` gives for it, and to no other LED. The LED that `led_clr` is
    /// asked about for a position is the LED of the controller at that
    /// position.
    pub fn cmd_with_leds<F: Fn(Led<'c>) -> Color>(&self, led_clr: F) -> (cmd: Command<'c>)
        requires
            forall|led: Led<'c>| led_clr.requires((led,)),
        ensures
            cmd.controller() == self.spec_controller(),
            forall|i: int|
                cmd.pending().contains_key(i) <==> self.spec_offset() <= i < self.spec_offset()
                    + spec_zone_led_records(self.spec_controller()@, self.spec_zone_id() as int),
            forall|i: int|
                #![trigger cmd.pending().contains_key(i)]
                cmd.pending().contains_key(i) ==> {
                    let led = Led::spec_new(i as usize, self.spec_controller());
                    &&& led.spec_is(i as usize, self.spec_controller())
                    &&& led_clr.ensures((led,), cmd.pending()[i])
                },
    {
        let leds = self.led_iter();
        let offset = self.offset();
        let total: usize = self.controller.num_leds();
        let mut cmd = self.cmd();
        let mut k: usize = 0;
        while k < leds.len()
            invariant
                k <= leds.len(),
                cmd.controller() == self.controller,
                total == self.controller@.num_leds,
                offset + leds@.len() <= total,
                forall|led: Led<'c>| led_clr.requires((led,)),
                forall|j: int|
                    0 <= j < leds@.len() ==> (#[trigger] leds@[j]).spec_is(
                        (offset + j) as usize,
                        self.controller,
                    ),
                forall|i: int| cmd.pending().contains_key(i) <==> offset <= i < offset + k,
                forall|i: int|
                    cmd.pending().contains_key(i) ==> led_clr.ensures(
                        (Led::spec_new(i as usize, self.controller),),
                        #[trigger] cmd.pending()[i],
                    ),
            decreases leds.len() - k,
        {
            let led = leds[k];
            let color = led_clr(led);
            let _ = cmd.set_led(offset + k, color);
            k += 1;
        }
        proof {
            assert forall|i: int| #![trigger cmd.pending().contains_key(i)]
                cmd.pending().contains_key(i) implies {
                let led = Led::spec_new(i as usize, self.controller);
                &&& led.spec_is(i as usize, self.controller)
                &&& led_clr.ensures((led,), cmd.pending()[i])
            } by {
                Led::lemma_spec_new(i as usize, self.controller);
            }
        }
        cmd
    }

    /// A command for the controller of the zone that assigns `colors` to the
    /// LEDs of the zone, from its first LED on. Fails with `RangeOutOfBounds`
    /// where there are more colors than LEDs in the zone.
    pub fn cmd_with_set_leds(&self, colors: &[Color]) -> (res: Result<Command<'c>, OpenRgbError>)
        ensures
            res is Ok <==> colors@.len() <= self.spec_data().leds_count,
            res matches Ok(cmd) ==> cmd.controller() == self.spec_controller() && cmd.pending()
                == crate::client::command::spec_assign_run(
                Map::<int, Color>::empty(),
                self.spec_offset() as int,
                colors@,
            ),
            res matches Err(e) ==> e == OpenRgbError::CommandError(
                CommandError::RangeOutOfBounds {
                    start: 0,
                    count: colors@.len() as usize,
                    len: self.spec_data().leds_count as usize,
                },
            ),
    {
        proof {
            use_type_invariant(self);
        }
        let mut cmd = self.cmd();
        cmd.set_zone_leds(self.zone_id, colors)?;
        Ok(cmd)
    }

    /// The request that sets the LED at position `idx` of the zone to
    /// `color`. Fails with `IndexOutOfBounds` where the zone has no such LED.
    pub fn set_led(&self, idx: usize, color: Color) -> (res: Result<Request, OpenRgbError>)
        ensures
            res is Ok <==> idx < self.spec_data().leds_count,
            res matches Ok(request) ==> request@ == (RequestModel::UpdateSingleLed {
                controller_id: self.spec_controller()@.id,
                led_id: (self.spec_offset() + idx) as usize,
                color,
            }),
            res matches Err(e) ==> e == OpenRgbError::CommandError(
                CommandError::IndexOutOfBounds {
                    index: idx,
                    len: self.spec_data().leds_count as usize,
                },
            ),
    {
        let len = self.num_leds();
        if idx >= len {
            return Err(
                OpenRgbError::CommandError(CommandError::IndexOutOfBounds { index: idx, len }),
            );
        }
        let offset = self.offset();
        Ok(
            Request::UpdateSingleLed {
                controller_id: self.controller.request_id(),
                led_id: offset + idx,
                color,
            },
        )
    }

    /// The request that sets the LEDs of the zone to `colors`, from its
    /// first LED on; the LEDs of the zone beyond them are set to black.
    /// Fails with `RangeOutOfBounds` where there are more colors than LEDs in
    /// the zone.
    pub fn set_leds(&self, colors: &[Color]) -> (res: Result<Request, OpenRgbError>)
        ensures
            res is Ok <==> colors@.len() <= self.spec_data().leds_count,
            res matches Ok(request) ==> request@ == (RequestModel::UpdateZoneLeds {
                controller_id: self.spec_controller()@.id,
                zone_id: self.spec_zone_id() as u32,
                colors: spec_pad_colors(colors@, self.spec_data().leds_count as nat),
            }),
            res matches Err(e) ==> e == OpenRgbError::CommandError(
                CommandError::RangeOutOfBounds {
                    start: 0,
                    count: colors@.len() as usize,
                    len: self.spec_data().leds_count as usize,
                },
            ),
    {
        let len = self.num_leds();
        if colors.len() > len {
            return Err(
                OpenRgbError::CommandError(
                    CommandError::RangeOutOfBounds { start: 0, count: colors.len(), len },
                ),
            );
        }
        let mut padded: Vec<Color> = Vec::new();
        let mut i: usize = 0;
        while i < len
            invariant
                i <= len,
                colors@.len() <= len,
                padded@.len() == i,
                forall|j: int|
                    0 <= j < i ==> padded@[j] == if j < colors@.len() {
                        colors@[j]
                    } else {
                        Color::spec_black()
                    },
            decreases len - i,
        {
            padded.push(
                if i < colors.len() {
                    colors[i]
                } else {
                    Color::black()
                },
            );
            i += 1;
        }
        proof {
            assert(padded@ =~= spec_pad_colors(colors@, len as nat));
        }
        Ok(
            Request::UpdateZoneLeds {
                controller_id: self.controller.request_id(),
                zone_id: self.request_id(),
                colors: padded,
            },
        )
    }

    /// The request that sets every LED of the zone to `color`.
    pub fn set_all_leds(&self, color: Color) -> (request: Request)
        ensures
            request@ == (RequestModel::UpdateZoneLeds {
                controller_id: self.spec_controller()@.id,
                zone_id: self.spec_zone_id() as u32,
                colors: Seq::new(self.spec_data().leds_count as nat, |i: int| color),
            }),
    {
        let len = self.num_leds();
        let mut colors: Vec<Color> = Vec::new();
        let mut i: usize = 0;
        while i < len
            invariant
                i <= len,
                colors@.len() == i,
                forall|j: int| 0 <= j < i ==> colors@[j] == color,
            decreases len - i,
        {
            colors.push(color);
            i += 1;
        }
        proof {
            assert(colors@ =~= Seq::new(len as nat, |i: int| color));
        }
        Request::UpdateZoneLeds {
            controller_id: self.controller.request_id(),
            zone_id: self.request_id(),
            colors,
        }
    }

    /// The request that adds a segment of `led_count` LEDs to the zone, from
    /// the LED at position `start_idx` of the zone on. Fails with
    /// `SegmentsUnsupported` where the snapshot has no segments, and with
    /// `RangeOutOfBounds` where the segment would not lie inside the zone.
    pub fn add_segment(&self, name: String, start_idx: usize, led_count: usize) -> (res: Result<
        Request,
        OpenRgbError,
    >)
        ensures
            res is Ok <==> self.spec_data().segments is Some && start_idx + led_count
                <= self.spec_data().leds_count,
            res matches Ok(request) ==> request@ == (RequestModel::AddSegment {
                controller_id: self.spec_controller()@.id,
                zone_id: self.spec_zone_id() as u32,
                segment: SegmentModel {
                    id: 0,
                    name: name@,
                    offset: start_idx as u32,
                    led_count: led_count as u32,
                },
            }),
            res matches Err(e) ==> e == if self.spec_data().segments is None {
                OpenRgbError::CommandError(CommandError::SegmentsUnsupported)
            } else {
                OpenRgbError::CommandError(
                    CommandError::RangeOutOfBounds {
                        start: start_idx,
                        count: led_count,
                        len: self.spec_data().leds_count as usize,
                    },
                )
            },
    {
        if self.segment_data().is_none() {
            return Err(OpenRgbError::CommandError(CommandError::SegmentsUnsupported));
        }
        let len = self.num_leds();
        if start_idx > len || led_count > len - start_idx {
            return Err(
                OpenRgbError::CommandError(
                    CommandError::RangeOutOfBounds { start: start_idx, count: led_count, len },
                ),
            );
        }
        Ok(
            Request::AddSegment {
                controller_id: self.controller.request_id(),
                zone_id: self.request_id(),
                segment: SegmentData::new(name, start_idx as u32, led_count as u32),
            },
        )
    }

    /// The request that removes every segment of every zone of the
    /// controller of this zone. Fails with `SegmentsUnsupported` where the
    /// snapshot has no segments.
    pub fn clear_segments(&self) -> (res: Result<Request, OpenRgbError>)
        ensures
            res is Ok <==> self.spec_data().segments is Some,
            res matches Ok(request) ==> request@ == (RequestModel::ClearSegments {
                controller_id: self.spec_controller()@.id,
            }),
            res matches Err(e) ==> e == OpenRgbError::CommandError(
                CommandError::SegmentsUnsupported,
            ),
    {
        if self.segment_data().is_none() {
            return Err(OpenRgbError::CommandError(CommandError::SegmentsUnsupported));
        }
        Ok(Request::ClearSegments { controller_id: self.controller.request_id() })
    }

    /// The request that resizes the zone to `new_size` LEDs. Fails with
    /// `OutOfRange` where the size is outside the bounds that the device
    /// declares for the zone.
    pub fn resize(&self, new_size: usize) -> (res: Result<Request, OpenRgbError>)
        ensures
            res is Ok <==> self.spec_data().leds_min <= new_size <= self.spec_data().leds_max,
            res matches Ok(request) ==> request@ == (RequestModel::ResizeZone {
                controller_id: self.spec_controller()@.id,
                zone_id: self.spec_zone_id() as u32,
                new_size: new_size as u32,
            }),
            res matches Err(e) ==> e == OpenRgbError::CommandError(
                CommandError::SizeOutOfRange {
                    min_size: self.spec_data().leds_min as usize,
                    max_size: self.spec_data().leds_max as usize,
                    size: new_size,
                },
            ),
    {
        let min = self.leds_min();
        let max = self.leds_max();
        if new_size < min || new_size > max {
            return Err(
                OpenRgbError::CommandError(
                    CommandError::SizeOutOfRange { min_size: min, max_size: max, size: new_size },
                ),
            );
        }
        Ok(
            Request::ResizeZone {
                controller_id: self.controller.request_id(),
                zone_id: self.request_id(),
                new_size: new_size as u32,
            },
        )
    }
}

} // verus!

//! The snapshot of one controller, as the last decoded message described it.

use vstd::prelude::*;
use crate::client::command::Command;
use crate::client::led::Led;
use crate::client::mode::ControllerMode;
use crate::client::request::{Request, RequestModel};
use crate::client::zone::Zone;
use crate::data::color::Color;
use crate::data::controller::{lemma_total_leds_take, spec_total_leds, spec_zone_offset,
    ControllerData, ControllerModel};
use crate::data::led::LedData;
use crate::data::mode::ModeData;
use crate::data::zone::ZoneData;
use crate::error::{CommandError, OpenRgbError};
use crate::protocol::sequence::spec_models;

verus! {

/// A controller: the id it is requested by, and the snapshot of its data. The
/// snapshot is well formed and holds one color for each of its LEDs. It stays
/// as it is until it is replaced by a newly decoded one.
#[derive(Debug, PartialEq, Eq)]
pub struct Controller {
    data: ControllerData,
}

impl View for Controller {
    type V = ControllerModel;

    closed spec fn view(&self) -> ControllerModel {
        self.data@
    }
}

impl Controller {
    #[verifier::type_invariant]
    spec fn consistent(self) -> bool {
        self.data@.well_formed() && self.data.colors.len() == self.data.num_leds
    }

    /// What holds of the snapshot of every controller.
    pub open spec fn spec_snapshot(model: ControllerModel) -> bool {
        model.well_formed() && model.colors.len() == model.num_leds
    }

    /// The controller with the given id and snapshot. Fails with
    /// `MalformedMessage` where the snapshot is not well formed or does not
    /// hold one color for each LED.
    pub fn new(id: u32, data: ControllerData) -> (res: Result<Controller, OpenRgbError>)
        ensures
            res is Ok <==> Controller::spec_snapshot(data@),
            res matches Ok(controller) ==> controller@ == (ControllerModel { id, ..data@ }),
            res matches Err(e) ==> e == OpenRgbError::MalformedMessage,
    {
        if !data.is_well_formed() || data.colors.len() != data.num_leds {
            return Err(OpenRgbError::MalformedMessage);
        }
        let mut data = data;
        data.id = id;
        Ok(Controller { data })
    }

    /// The snapshot.
    pub fn data(&self) -> (data: &ControllerData)
        ensures
            data@ == self@,
            Controller::spec_snapshot(data@),
    {
        proof {
            use_type_invariant(self);
        }
        &self.data
    }

    /// The id that the controller is requested by.
    pub fn id(&self) -> (id: usize)
        ensures
            id == self@.id,
    {
        self.data.id as usize
    }

    /// The LED at position `id`. Fails with `IndexOutOfBounds` where the
    /// controller has no record or no color for it.
    pub fn get_led(&self, id: usize) -> (res: Result<Led<'_>, OpenRgbError>)
        ensures
            res is Ok <==> id < self@.leds.len() && id < self@.colors.len(),
            res matches Ok(led) ==> led.spec_is(id, self),
            res matches Err(e) ==> e == OpenRgbError::CommandError(
                CommandError::IndexOutOfBounds {
                    index: id,
                    len: if self@.leds.len() <= self@.colors.len() {
                        self@.leds.len() as usize
                    } else {
                        self@.colors.len() as usize
                    },
                },
            ),
    {
        let len = if self.data.leds.len() <= self.data.colors.len() {
            self.data.leds.len()
        } else {
            self.data.colors.len()
        };
        if id >= len {
            return Err(
                OpenRgbError::CommandError(CommandError::IndexOutOfBounds { index: id, len }),
            );
        }
        Ok(Led::new(id, self))
    }

    /// The id of the controller as requests name it.
    pub fn request_id(&self) -> (id: u32)
        ensures
            id == self@.id,
    {
        self.data.id
    }

    /// The name of the controller.
    pub fn name(&self) -> (name: &str)
        ensures
            name@ == self@.name,
    {
        self.data.name.as_str()
    }

    /// The number of LEDs: the sum of the zones' LED counts, and the number
    /// of colors in the snapshot.
    pub fn num_leds(&self) -> (n: usize)
        ensures
            n == self@.num_leds,
            n == spec_total_leds(self@.zones),
            n == self@.colors.len(),
    {
        proof {
            use_type_invariant(self);
        }
        self.data.num_leds
    }

    /// The colors of the LEDs in the snapshot.
    pub fn colors(&self) -> (colors: &[Color])
        ensures
            colors@ == self@.colors,
    {
        self.data.colors.as_slice()
    }

    /// The records of the LEDs. There may be fewer than LEDs.
    pub fn led_data(&self) -> (leds: &[LedData])
        ensures
            spec_models(leds@) == self@.leds,
    {
        self.data.leds.as_slice()
    }

    /// The records of the zones.
    pub fn zone_data(&self) -> (zones: &[ZoneData])
        ensures
            spec_models(zones@) == self@.zones,
    {
        self.data.zones.as_slice()
    }

    /// The records of the modes.
    pub fn mode_data(&self) -> (modes: &[ModeData])
        ensures
            spec_models(modes@) == self@.modes,
    {
        self.data.modes.as_slice()
    }

    /// The position of the active mode among the modes.
    pub fn active_mode_index(&self) -> (index: usize)
        ensures
            index == self@.active_mode,
            index < self@.modes.len(),
    {
        proof {
            use_type_invariant(self);
        }
        self.data.active_mode as usize
    }

    /// The position, among all LEDs of the controller, of the first LED of
    /// the zone at position `zone_id`: the sum of the LED counts of the zones
    /// before it. Fails with `IndexOutOfBounds` where there is no such zone.
    pub fn get_zone_led_offset(&self, zone_id: usize) -> (res: Result<usize, OpenRgbError>)
        ensures
            res is Ok <==> zone_id < self@.zones.len(),
            res matches Ok(offset) ==> offset == spec_zone_offset(self@.zones, zone_id as int)
                && offset + self@.zones[zone_id as int].leds_count <= self@.num_leds,
            res matches Err(e) ==> e == OpenRgbError::CommandError(
                CommandError::IndexOutOfBounds { index: zone_id, len: self@.zones.len() as usize },
            ),
    {
        proof {
            use_type_invariant(self);
        }
        if zone_id >= self.data.zones.len() {
            return Err(
                OpenRgbError::CommandError(
                    CommandError::IndexOutOfBounds { index: zone_id, len: self.data.zones.len() },
                ),
            );
        }
        let ghost zones = self@.zones;
        let mut offset: usize = 0;
        let mut i: usize = 0;
        while i < zone_id
            invariant
                i <= zone_id < self.data.zones.len(),
                zones == spec_models(self.data.zones@),
                spec_total_leds(zones) <= usize::MAX,
                offset == spec_total_leds(zones.take(i as int)),
            decreases zone_id - i,
        {
            proof {
                lemma_total_leds_take(zones, i as int);
                lemma_total_leds_take(zones, i + 1);
                assert(zones[i as int] == self.data.zones[i as int]@);
            }
            offset = offset + self.data.zones[i].leds_count();
            i += 1;
        }
        proof {
            lemma_total_leds_take(zones, zone_id as int);
            lemma_total_leds_take(zones, zone_id + 1);
            assert(zones.take(0) =~= Seq::<crate::data::zone::ZoneModel>::empty());
        }
        Ok(offset)
    }

    /// The LEDs of the zone at position `zone_id`: the position of its first
    /// LED among all LEDs of the controller, and its number of LEDs. Fails
    /// with `IndexOutOfBounds` where there is no such zone.
    pub fn zone_range(&self, zone_id: usize) -> (res: Result<(usize, usize), OpenRgbError>)
        ensures
            res is Ok <==> zone_id < self@.zones.len(),
            res matches Ok(range) ==> range.0 == spec_zone_offset(self@.zones, zone_id as int)
                && range.1 == self@.zones[zone_id as int].leds_count && range.0 + range.1
                <= self@.num_leds,
            res matches Err(e) ==> e == OpenRgbError::CommandError(
                CommandError::IndexOutOfBounds { index: zone_id, len: self@.zones.len() as usize },
            ),
    {
        let offset = self.get_zone_led_offset(zone_id)?;
        let zones = self.zone_data();
        assert(spec_models(zones@)[zone_id as int] == zones[zone_id as int]@);
        Ok((offset, zones[zone_id].leds_count()))
    }

    /// The LEDs of the segment at position `segment_id` of the zone at
    /// position `zone_id`: the position of its first LED among all LEDs of
    /// the controller, and its number of LEDs. Fails with `IndexOutOfBounds`
    /// where there is no such zone, with `SegmentsUnsupported` where the
    /// snapshot has no segments, and with `IndexOutOfBounds` where the zone
    /// has no such segment.
    pub fn segment_range(&self, zone_id: usize, segment_id: usize) -> (res: Result<
        (usize, usize),
        OpenRgbError,
    >)
        ensures
            res is Ok <==> self@.has_segment(zone_id as int, segment_id as int),
            res matches Ok(range) ==> range.0 == self@.segment_offset(
                zone_id as int,
                segment_id as int,
            ) && range.1 == self@.zones[zone_id as int].segments->0[segment_id as int].led_count
                && range.0 + range.1 <= self@.num_leds,
            res matches Err(e) ==> e == self@.segment_error(zone_id, segment_id),
    {
        proof {
            use_type_invariant(self);
        }
        let (offset, _) = self.zone_range(zone_id)?;
        let zones = self.zone_data();
        assert(spec_models(zones@)[zone_id as int] == zones[zone_id as int]@);
        assert(self@.zones[zone_id as int].well_formed());
        let segments = match zones[zone_id].segments() {
            Some(segments) => segments,
            None => {
                return Err(OpenRgbError::CommandError(CommandError::SegmentsUnsupported));
            },
        };
        if segment_id >= segments.len() {
            return Err(
                OpenRgbError::CommandError(
                    CommandError::IndexOutOfBounds { index: segment_id, len: segments.len() },
                ),
            );
        }
        assert(spec_models(segments@)[segment_id as int] == segments[segment_id as int]@);
        assert(self@.zones[zone_id as int].segments->0[segment_id as int].fits(
            self@.zones[zone_id as int].leds_count,
        ));
        let segment = &segments[segment_id];
        Ok((offset + segment.offset() as usize, segment.led_count() as usize))
    }

    /// The zone at position `zone_id`. Fails with `IndexOutOfBounds` where
    /// there is no such zone.
    pub fn get_zone(&self, zone_id: usize) -> (res: Result<Zone<'_>, OpenRgbError>)
        ensures
            res is Ok <==> zone_id < self@.zones.len(),
            res matches Ok(zone) ==> zone.spec_is(self, zone_id),
            res matches Err(e) ==> e == OpenRgbError::CommandError(
                CommandError::IndexOutOfBounds { index: zone_id, len: self@.zones.len() as usize },
            ),
    {
        if zone_id >= self.data.zones.len() {
            return Err(
                OpenRgbError::CommandError(
                    CommandError::IndexOutOfBounds { index: zone_id, len: self.data.zones.len() },
                ),
            );
        }
        Ok(Zone::new(self, zone_id))
    }

    /// The zones, in order.
    pub fn zone_iter(&self) -> (zones: Vec<Zone<'_>>)
        ensures
            zones@.len() == self@.zones.len(),
            forall|i: int|
                0 <= i < zones@.len() ==> (#[trigger] zones@[i]).spec_is(self, i as usize),
    {
        let mut zones: Vec<Zone<'_>> = Vec::new();
        let mut i: usize = 0;
        while i < self.data.zones.len()
            invariant
                i <= self.data.zones.len(),
                self.data.zones.len() == self@.zones.len(),
                zones@.len() == i,
                forall|j: int| 0 <= j < i ==> (#[trigger] zones@[j]).spec_is(self, j as usize),
            decreases self.data.zones.len() - i,
        {
            zones.push(Zone::new(self, i));
            i += 1;
        }
        zones
    }

    /// The LEDs for which the controller has a record and a color, in order.
    pub fn led_iter(&self) -> (leds: Vec<Led<'_>>)
        ensures
            leds@.len() == if self@.leds.len() <= self@.colors.len() {
                self@.leds.len()
            } else {
                self@.colors.len()
            },
            forall|i: int| 0 <= i < leds@.len() ==> (#[trigger] leds@[i]).spec_is(i as usize, self),
    {
        let len = if self.data.leds.len() <= self.data.colors.len() {
            self.data.leds.len()
        } else {
            self.data.colors.len()
        };
        let mut leds: Vec<Led<'_>> = Vec::new();
        let mut i: usize = 0;
        while i < len
            invariant
                i <= len,
                len <= self@.leds.len(),
                len <= self@.colors.len(),
                leds@.len() == i,
                forall|j: int| 0 <= j < i ==> (#[trigger] leds@[j]).spec_is(j as usize, self),
            decreases len - i,
        {
            leds.push(Led::new(i, self));
            i += 1;
        }
        leds
    }

    /// The mode at position `index`, which is active where `index` is the
    /// position of the active mode. Fails with `IndexOutOfBounds` where there
    /// is no such mode.
    pub fn get_mode(&self, index: usize) -> (res: Result<ControllerMode<'_>, OpenRgbError>)
        ensures
            res is Ok <==> index < self@.modes.len(),
            res matches Ok(mode) ==> mode.spec_data()@ == self@.modes[index as int]
                && mode.spec_is_active() == (index == self@.active_mode)
                && mode.spec_kind().spec_is_kind_of(self@.modes[index as int].name),
            res matches Err(e) ==> e == OpenRgbError::CommandError(
                CommandError::IndexOutOfBounds { index, len: self@.modes.len() as usize },
            ),
    {
        if index >= self.data.modes.len() {
            return Err(
                OpenRgbError::CommandError(
                    CommandError::IndexOutOfBounds { index, len: self.data.modes.len() },
                ),
            );
        }
        let active = self.active_mode_index();
        assert(spec_models(self.data.modes@)[index as int] == self.data.modes[index as int]@);
        Ok(ControllerMode::new(&self.data.modes[index], index == active))
    }

    /// The active mode.
    pub fn active_mode(&self) -> (mode: ControllerMode<'_>)
        ensures
            mode.spec_data()@ == self@.modes[self@.active_mode as int],
            mode.spec_is_active(),
            mode.spec_kind().spec_is_kind_of(self@.modes[self@.active_mode as int].name),
    {
        let active = self.active_mode_index();
        assert(spec_models(self.data.modes@)[active as int] == self.data.modes[active as int]@);
        ControllerMode::new(&self.data.modes[active], true)
    }

    /// The request that asks the server for the data of this controller.
    pub fn request_data(&self) -> (request: Request)
        ensures
            request@ == (RequestModel::RequestControllerData { controller_id: self@.id }),
    {
        Request::RequestControllerData { controller_id: self.data.id }
    }

    /// A command that assigns to each LED for which the controller has a
    /// record the color that `led_clr` gives for it, and to no other LED. The
    /// LED that `led_clr` is asked about for a position is the LED of the
    /// controller at that position.
    pub fn cmd_with_leds<'c, F: Fn(Led<'c>) -> Color>(&'c self, led_clr: F) -> (cmd: Command<'c>)
        requires
            forall|led: Led<'c>| led_clr.requires((led,)),
        ensures
            cmd.controller() == self,
            forall|i: int|
                cmd.pending().contains_key(i) <==> 0 <= i < self@.leds.len() && i
                    < self@.colors.len(),
            forall|i: int|
                #![trigger cmd.pending().contains_key(i)]
                cmd.pending().contains_key(i) ==> {
                    let led = Led::spec_new(i as usize, self);
                    &&& led.spec_is(i as usize, self)
                    &&& led_clr.ensures((led,), cmd.pending()[i])
                },
    {
        let leds = self.led_iter();
        let total: usize = self.num_leds();
        let mut cmd = self.cmd();
        let mut k: usize = 0;
        while k < leds.len()
            invariant
                k <= leds.len(),
                cmd.controller() == self,
                total == self@.num_leds,
                leds@.len() <= total,
                forall|led: Led<'c>| led_clr.requires((led,)),
                forall|j: int|
                    0 <= j < leds@.len() ==> (#[trigger] leds@[j]).spec_is(j as usize, self),
                forall|i: int| cmd.pending().contains_key(i) <==> 0 <= i < k,
                forall|i: int|
                    cmd.pending().contains_key(i) ==> led_clr.ensures(
                        (Led::spec_new(i as usize, self),),
                        #[trigger] cmd.pending()[i],
                    ),
            decreases leds.len() - k,
        {
            let led = leds[k];
            let color = led_clr(led);
            let _ = cmd.set_led(k, color);
            k += 1;
        }
        proof {
            assert forall|i: int| #![trigger cmd.pending().contains_key(i)]
                cmd.pending().contains_key(i) implies {
                let led = Led::spec_new(i as usize, self);
                &&& led.spec_is(i as usize, self)
                &&& led_clr.ensures((led,), cmd.pending()[i])
            } by {
                Led::lemma_spec_new(i as usize, self);
            }
        }
        cmd
    }

    /// An empty command for this controller.
    pub fn cmd(&self) -> (cmd: Command<'_>)
        ensures
            cmd.controller() == self,
            cmd.pending() == Map::<int, Color>::empty(),
    {
        Command::new(self)
    }
}

} // verus!

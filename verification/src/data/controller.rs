//! The record of a controller: one lighting device with its modes, zones and
//! LEDs, as one message describes it.

use vstd::prelude::*;
use crate::data::color::Color;
use crate::data::flags::ControllerFlags;
use crate::data::kinds::DeviceType;
use crate::data::led::{LedData, LedModel};
use crate::data::mode::{ModeData, ModeModel};
use crate::data::zone::{ZoneData, ZoneModel};
use crate::error::{CommandError, OpenRgbError};
use crate::protocol::sequence::spec_models;
use crate::protocol::version::ProtocolOption;
use crate::protocol::wire::DeserFromBuf;

verus! {

/// The id of a controller that no request has been made for.
pub const NO_CONTROLLER_ID: u32 = 0xFFFF_FFFF;

/// A controller as one message describes it.
#[derive(Debug, Eq, PartialEq)]
pub struct ControllerData {
    /// The kind of device.
    pub device_type: DeviceType,
    /// The name of the controller.
    pub name: String,
    /// The vendor of the device.
    pub vendor: String,
    /// A description of the device.
    pub description: String,
    /// The version of the device's firmware.
    pub version: String,
    /// The serial number of the device.
    pub serial: String,
    /// Where the device is attached.
    pub location: String,
    /// The position of the active mode in `modes`.
    pub active_mode: i32,
    /// The modes.
    pub modes: Vec<ModeData>,
    /// The zones.
    pub zones: Vec<ZoneData>,
    /// The LEDs. The list may be shorter than `num_leds`.
    pub leds: Vec<LedData>,
    /// The color of each LED.
    pub colors: Vec<Color>,
    /// Alternate names of the LEDs, from protocol version 5 on.
    pub led_alt_names: ProtocolOption<5, Vec<String>>,
    /// The capabilities of the controller, from protocol version 5 on.
    pub flags: ProtocolOption<5, ControllerFlags>,
    /// The id that the controller was requested by. It is not transmitted.
    pub id: u32,
    /// The number of LEDs: the sum of the zones' LED counts. It is not
    /// transmitted.
    pub num_leds: usize,
}

/// What a `ControllerData` stands for.
pub ghost struct ControllerModel {
    pub device_type: DeviceType,
    pub name: Seq<char>,
    pub vendor: Seq<char>,
    pub description: Seq<char>,
    pub version: Seq<char>,
    pub serial: Seq<char>,
    pub location: Seq<char>,
    pub active_mode: i32,
    pub modes: Seq<ModeModel>,
    pub zones: Seq<ZoneModel>,
    pub leds: Seq<LedModel>,
    pub colors: Seq<Color>,
    pub led_alt_names: Option<Seq<Seq<char>>>,
    pub flags: Option<ControllerFlags>,
    pub id: u32,
    pub num_leds: usize,
}

/// The number of LEDs of `zones` together.
pub open spec fn spec_total_leds(zones: Seq<ZoneModel>) -> nat
    decreases zones.len(),
{
    if zones.len() == 0 {
        0
    } else {
        spec_total_leds(zones.drop_last()) + zones.last().leds_count as nat
    }
}

/// The position, among all LEDs of a controller, of the first LED of the zone
/// at position `zone`: the number of LEDs of the zones before it.
pub open spec fn spec_zone_offset(zones: Seq<ZoneModel>, zone: int) -> nat {
    spec_total_leds(zones.take(zone))
}

/// `modes`, each at its position.
pub open spec fn spec_index_modes(modes: Seq<ModeModel>) -> Seq<ModeModel> {
    Seq::new(modes.len(), |i: int| modes[i].at(i as u32))
}

/// `zones`, each at its position.
pub open spec fn spec_index_zones(zones: Seq<ZoneModel>) -> Seq<ZoneModel> {
    Seq::new(zones.len(), |i: int| zones[i].at(i as usize))
}

impl ControllerModel {
    /// What holds of every decoded controller: the modes and the zones can
    /// be counted in 16 bits, the number of LEDs is the sum of the zones' LED
    /// counts, every mode and zone is at its position, the active mode is one
    /// of the modes, and in every zone every segment lies inside the zone and
    /// is at its position.
    pub open spec fn well_formed(self) -> bool {
        &&& self.modes.len() <= 0xFFFF
        &&& self.zones.len() <= 0xFFFF
        &&& self.num_leds == spec_total_leds(self.zones)
        &&& self.modes == spec_index_modes(self.modes)
        &&& self.zones == spec_index_zones(self.zones)
        &&& 0 <= self.active_mode < self.modes.len()
        &&& forall|k: int| 0 <= k < self.zones.len() ==> (#[trigger] self.zones[k]).well_formed()
    }
}

impl ControllerModel {
    /// Whether there is a zone at position `zone`.
    pub open spec fn has_zone(self, zone: int) -> bool {
        0 <= zone < self.zones.len()
    }

    /// The position, among all LEDs of the controller, of the first LED of
    /// the zone at position `zone`.
    pub open spec fn zone_offset(self, zone: int) -> nat {
        spec_zone_offset(self.zones, zone)
    }

    /// The number of LEDs of the zone at position `zone`.
    pub open spec fn zone_len(self, zone: int) -> nat {
        self.zones[zone].leds_count as nat
    }

    /// Why the zone at position `zone` cannot be addressed, where it cannot.
    pub open spec fn zone_error(self, zone: usize) -> OpenRgbError {
        OpenRgbError::CommandError(
            CommandError::IndexOutOfBounds { index: zone, len: self.zones.len() as usize },
        )
    }

    /// The number of LEDs of the segment at position `segment` of the zone at
    /// position `zone`.
    pub open spec fn segment_len(self, zone: int, segment: int) -> nat {
        self.zones[zone].segments->0[segment].led_count as nat
    }

    /// Whether the zone at position `zone` has segments, and one at position
    /// `segment`.
    pub open spec fn has_segment(self, zone: int, segment: int) -> bool {
        &&& 0 <= zone < self.zones.len()
        &&& self.zones[zone].segments is Some
        &&& 0 <= segment < self.zones[zone].segments->0.len()
    }

    /// The position, among all LEDs of the controller, of the first LED of
    /// the segment at position `segment` of the zone at position `zone`: the
    /// position of the zone's first LED plus the offset of the segment.
    pub open spec fn segment_offset(self, zone: int, segment: int) -> nat {
        spec_zone_offset(self.zones, zone) + self.zones[zone].segments->0[segment].offset as nat
    }

    /// In a well-formed controller a segment takes up LEDs of its zone: it
    /// begins no earlier than the zone and ends no later.
    pub proof fn lemma_segment_run(self, zone: int, segment: int)
        requires
            self.well_formed(),
            self.has_segment(zone, segment),
        ensures
            spec_zone_offset(self.zones, zone) <= self.segment_offset(zone, segment),
            self.segment_offset(zone, segment) + self.zones[zone].segments->0[segment].led_count
                <= spec_zone_offset(self.zones, zone) + self.zones[zone].leds_count,
            spec_zone_offset(self.zones, zone) + self.zones[zone].leds_count <= self.num_leds,
    {
        lemma_total_leds_take(self.zones, zone);
        lemma_total_leds_take(self.zones, zone + 1);
        assert(self.zones[zone].well_formed());
        assert(self.zones[zone].segments->0[segment].fits(self.zones[zone].leds_count));
    }

    /// Why the segment at position `segment` of the zone at position `zone`
    /// cannot be addressed, where it cannot.
    pub open spec fn segment_error(self, zone: usize, segment: usize) -> OpenRgbError {
        if zone >= self.zones.len() {
            OpenRgbError::CommandError(
                CommandError::IndexOutOfBounds { index: zone, len: self.zones.len() as usize },
            )
        } else if self.zones[zone as int].segments is None {
            OpenRgbError::CommandError(CommandError::SegmentsUnsupported)
        } else {
            OpenRgbError::CommandError(
                CommandError::IndexOutOfBounds {
                    index: segment,
                    len: self.zones[zone as int].segments->0.len() as usize,
                },
            )
        }
    }
}

impl View for ControllerData {
    type V = ControllerModel;

    open spec fn view(&self) -> ControllerModel {
        ControllerModel {
            device_type: self.device_type,
            name: self.name@,
            vendor: self.vendor@,
            description: self.description@,
            version: self.version@,
            serial: self.serial@,
            location: self.location@,
            active_mode: self.active_mode,
            modes: spec_models(self.modes@),
            zones: spec_models(self.zones@),
            leds: spec_models(self.leds@),
            colors: self.colors@,
            led_alt_names: self.led_alt_names.model(),
            flags: self.flags.model(),
            id: self.id,
            num_leds: self.num_leds,
        }
    }
}

/// Adding a zone adds its LEDs.
pub proof fn lemma_total_leds_push(zones: Seq<ZoneModel>, zone: ZoneModel)
    ensures
        spec_total_leds(zones.push(zone)) == spec_total_leds(zones) + zone.leds_count,
{
    assert(zones.push(zone).drop_last() =~= zones);
}

/// The LEDs of the first zones are among the LEDs of all zones.
pub proof fn lemma_total_leds_take(zones: Seq<ZoneModel>, k: int)
    requires
        0 <= k <= zones.len(),
    ensures
        spec_total_leds(zones.take(k)) <= spec_total_leds(zones),
        k < zones.len() ==> spec_total_leds(zones.take(k)) + zones[k].leds_count
            == spec_total_leds(zones.take(k + 1)),
    decreases zones.len() - k,
{
    if k < zones.len() {
        assert(zones.take(k + 1) =~= zones.take(k).push(zones[k]));
        lemma_total_leds_push(zones.take(k), zones[k]);
        lemma_total_leds_take(zones, k + 1);
    } else {
        assert(zones.take(k) =~= zones);
    }
}

/// The zones of a controller take up disjoint runs of its LEDs, in order:
/// a zone ends where the next begins, no later than a later zone begins,
/// and inside the LEDs of the controller.
pub proof fn lemma_zone_runs(zones: Seq<ZoneModel>, first: int, second: int)
    requires
        0 <= first < second < zones.len(),
    ensures
        spec_zone_offset(zones, first) + zones[first].leds_count == spec_zone_offset(
            zones,
            first + 1,
        ),
        spec_zone_offset(zones, first) + zones[first].leds_count <= spec_zone_offset(
            zones,
            second,
        ),
        spec_zone_offset(zones, second) + zones[second].leds_count <= spec_total_leds(zones),
        spec_zone_offset(zones, 0) == 0,
    decreases second - first,
{
    lemma_total_leds_take(zones, first);
    lemma_total_leds_take(zones, second);
    lemma_total_leds_take(zones, second + 1);
    assert(zones.take(0) =~= Seq::<ZoneModel>::empty());
    if first + 1 < second {
        lemma_zone_runs(zones, first + 1, second);
    }
}

/// The number of LEDs depends on the LED counts of the zones alone.
pub proof fn lemma_total_leds_same(a: Seq<ZoneModel>, b: Seq<ZoneModel>)
    requires
        a.len() == b.len(),
        forall|i: int| 0 <= i < a.len() ==> a[i].leds_count == b[i].leds_count,
    ensures
        spec_total_leds(a) == spec_total_leds(b),
    decreases a.len(),
{
    if a.len() > 0 {
        lemma_total_leds_same(a.drop_last(), b.drop_last());
    }
}

/// Gives each mode its position.
pub(crate) fn index_modes(modes: &mut Vec<ModeData>)
    requires
        old(modes).len() <= 0xFFFF,
    ensures
        spec_models(final(modes)@) == spec_index_modes(spec_models(old(modes)@)),
{
    let mut i: usize = 0;
    while i < modes.len()
        invariant
            i <= modes.len(),
            modes.len() == old(modes).len(),
            modes.len() <= 0xFFFF,
            forall|j: int| 0 <= j < i ==> (#[trigger] modes[j])@ == old(modes)[j]@.at(j as u32),
            forall|j: int| i <= j < modes.len() ==> (#[trigger] modes[j]) == old(modes)[j],
        decreases modes.len() - i,
    {
        modes[i].set_index(i as u32);
        i += 1;
    }
    proof {
        assert(spec_models(modes@) =~= spec_index_modes(spec_models(old(modes)@)));
    }
}

/// Gives each zone its position.
pub(crate) fn index_zones(zones: &mut Vec<ZoneData>)
    ensures
        spec_models(final(zones)@) == spec_index_zones(spec_models(old(zones)@)),
{
    let mut i: usize = 0;
    while i < zones.len()
        invariant
            i <= zones.len(),
            zones.len() == old(zones).len(),
            forall|j: int| 0 <= j < i ==> (#[trigger] zones[j])@ == old(zones)[j]@.at(j as usize),
            forall|j: int| i <= j < zones.len() ==> (#[trigger] zones[j]) == old(zones)[j],
        decreases zones.len() - i,
    {
        zones[i].set_id(i);
        i += 1;
    }
    proof {
        assert(spec_models(zones@) =~= spec_index_zones(spec_models(old(zones)@)));
    }
}

/// The number of LEDs of `zones` together; `None` where it does not fit a
/// `usize`.
pub(crate) fn total_leds(zones: &Vec<ZoneData>) -> (total: Option<usize>)
    ensures
        total is Some <==> spec_total_leds(spec_models(zones@)) <= usize::MAX,
        total matches Some(n) ==> n == spec_total_leds(spec_models(zones@)),
{
    let ghost models = spec_models(zones@);
    let mut total: usize = 0;
    let mut i: usize = 0;
    while i < zones.len()
        invariant
            i <= zones.len(),
            models == spec_models(zones@),
            total == spec_total_leds(models.take(i as int)),
        decreases zones.len() - i,
    {
        proof {
            lemma_total_leds_take(models, i as int);
            lemma_total_leds_take(models, i + 1);
            assert(models[i as int] == zones[i as int]@);
        }
        let count = zones[i].leds_count();
        if count > usize::MAX - total {
            return None;
        }
        total = total + count;
        i += 1;
    }
    proof {
        assert(models.take(i as int) =~= models);
    }
    Some(total)
}


impl ControllerData {
    /// Whether this controller is as every decoded controller is.
    pub fn is_well_formed(&self) -> (res: bool)
        ensures
            res == self@.well_formed(),
    {
        if self.modes.len() > 0xFFFF || self.zones.len() > 0xFFFF {
            return false;
        }
        if self.active_mode < 0 || self.active_mode as usize >= self.modes.len() {
            return false;
        }
        match total_leds(&self.zones) {
            Some(n) => {
                if n != self.num_leds {
                    return false;
                }
            },
            None => {
                return false;
            },
        }
        let ghost modes = spec_models(self.modes@);
        let mut i: usize = 0;
        while i < self.modes.len()
            invariant
                i <= self.modes.len(),
                self.modes.len() <= 0xFFFF,
                modes == spec_models(self.modes@),
                forall|j: int| 0 <= j < i ==> (#[trigger] modes[j]).index == j,
            decreases self.modes.len() - i,
        {
            proof {
                assert(modes[i as int] == self.modes[i as int]@);
            }
            if self.modes[i].index() != i as u32 {
                proof {
                    if modes == spec_index_modes(modes) {
                        assert(spec_index_modes(modes)[i as int].index == i);
                    }
                }
                return false;
            }
            i += 1;
        }
        let ghost zones = spec_models(self.zones@);
        let mut k: usize = 0;
        while k < self.zones.len()
            invariant
                k <= self.zones.len(),
                zones == spec_models(self.zones@),
                forall|j: int| 0 <= j < k ==> (#[trigger] zones[j]).id == j && zones[j].well_formed(),
            decreases self.zones.len() - k,
        {
            proof {
                assert(zones[k as int] == self.zones[k as int]@);
            }
            if self.zones[k].id() != k || !self.zones[k].is_well_formed() {
                proof {
                    if zones == spec_index_zones(zones) {
                        assert(spec_index_zones(zones)[k as int].id == k);
                    }
                }
                return false;
            }
            k += 1;
        }
        proof {
            assert(modes =~= spec_index_modes(modes));
            assert(zones =~= spec_index_zones(zones));
        }
        true
    }

    /// The mode that is active, where the position of the active mode is that
    /// of a mode.
    pub fn active_mode(&self) -> (mode: Option<&ModeData>)
        ensures
            mode is Some <==> 0 <= self.active_mode < self.modes.len(),
            mode matches Some(m) ==> *m == self.modes[self.active_mode as int],
    {
        if self.active_mode < 0 || self.active_mode as usize >= self.modes.len() {
            None
        } else {
            Some(&self.modes[self.active_mode as usize])
        }
    }
}


} // verus!

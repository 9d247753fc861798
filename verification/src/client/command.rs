//! Commands: batches of color assignments that are validated against a
//! controller's snapshot as they are built, and sent as one array of colors.

use vstd::prelude::*;
use crate::client::controller::Controller;
use crate::client::request::{Request, RequestModel};
use crate::data::color::Color;
use crate::error::{CommandError, OpenRgbError};

verus! {

/// The array of `len` colors that a batch stands for: the assigned color
/// where one was assigned, black everywhere else.
pub open spec fn spec_materialize(pending: Map<int, Color>, len: nat) -> Seq<Color> {
    Seq::new(
        len,
        |i: int|
            if pending.contains_key(i) {
                pending[i]
            } else {
                Color::spec_black()
            },
    )
}

/// `pending` after `colors` were assigned to the positions from `start` on.
pub open spec fn spec_assign_run(pending: Map<int, Color>, start: int, colors: Seq<Color>) -> Map<
    int,
    Color,
> {
    Map::new(
        |i: int| pending.contains_key(i) || start <= i < start + colors.len(),
        |i: int|
            if start <= i < start + colors.len() {
                colors[i - start]
            } else {
                pending[i]
            },
    )
}

/// A batch of color assignments for one controller. Nothing is sent while it
/// is built.
pub struct Command<'c> {
    controller: &'c Controller,
    colors: Vec<Option<Color>>,
}

impl<'c> Command<'c> {
    #[verifier::type_invariant]
    spec fn sized(self) -> bool {
        self.colors.len() == self.controller@.num_leds
    }

    /// The controller that the command is for.
    pub closed spec fn controller(&self) -> &'c Controller {
        self.controller
    }

    /// The assignments made so far: the color of each position that has one.
    pub closed spec fn pending(&self) -> Map<int, Color> {
        Map::new(
            |i: int| 0 <= i < self.colors.len() && self.colors[i] is Some,
            |i: int| self.colors[i]->0,
        )
    }

    /// An empty command for `controller`.
    pub fn new(controller: &'c Controller) -> (cmd: Command<'c>)
        ensures
            cmd.controller() == controller,
            cmd.pending() == Map::<int, Color>::empty(),
    {
        let n = controller.num_leds();
        let mut colors: Vec<Option<Color>> = Vec::new();
        let mut i: usize = 0;
        while i < n
            invariant
                i <= n,
                colors.len() == i,
                forall|j: int| 0 <= j < i ==> colors[j] is None,
            decreases n - i,
        {
            colors.push(None);
            i += 1;
        }
        let cmd = Command { controller, colors };
        proof {
            assert(cmd.pending() =~= Map::<int, Color>::empty());
        }
        cmd
    }

    /// Assigns `color` to the LED at position `idx` of the controller; a
    /// color assigned to it before is forgotten. Fails with `IndexOutOfBounds`
    /// and changes nothing where the controller has no such LED.
    pub fn set_led(&mut self, idx: usize, color: Color) -> (res: Result<(), OpenRgbError>)
        ensures
            final(self).controller() == old(self).controller(),
            res is Ok <==> idx < old(self).controller()@.num_leds,
            res is Ok ==> final(self).pending() == old(self).pending().insert(idx as int, color),
            res matches Err(e) ==> *final(self) == *old(self) && e == OpenRgbError::CommandError(
                CommandError::IndexOutOfBounds {
                    index: idx,
                    len: old(self).controller()@.num_leds,
                },
            ),
    {
        proof {
            use_type_invariant(&*self);
        }
        if idx >= self.colors.len() {
            return Err(
                OpenRgbError::CommandError(
                    CommandError::IndexOutOfBounds { index: idx, len: self.colors.len() },
                ),
            );
        }
        self.colors[idx] = Some(color);
        proof {
            assert(self.pending() =~= old(self).pending().insert(idx as int, color));
        }
        Ok(())
    }

    /// Assigns `colors` to the positions from `start` on.
    fn assign_run(&mut self, start: usize, colors: &[Color])
        requires
            start + colors@.len() <= old(self).controller()@.num_leds,
        ensures
            final(self).controller() == old(self).controller(),
            final(self).pending() == spec_assign_run(old(self).pending(), start as int, colors@),
    {
        proof {
            use_type_invariant(&*self);
        }
        let mut i: usize = 0;
        while i < colors.len()
            invariant
                i <= colors.len(),
                start + colors@.len() <= self.colors.len(),
                self.colors.len() == old(self).colors.len(),
                self.controller == old(self).controller,
                self.colors.len() == self.controller@.num_leds,
                forall|j: int|
                    0 <= j < self.colors.len() ==> #[trigger] self.colors[j] == if start <= j
                        < start + i {
                        Some(colors[j - start])
                    } else {
                        old(self).colors[j]
                    },
            decreases colors.len() - i,
        {
            self.colors[start + i] = Some(colors[i]);
            i += 1;
        }
        proof {
            assert(self.pending() =~= spec_assign_run(old(self).pending(), start as int, colors@));
        }
    }

    /// Replaces the whole batch: `colors` are assigned to the LEDs of the
    /// controller from the first on, and every earlier assignment is
    /// forgotten. Fails with `RangeOutOfBounds` and changes nothing where
    /// there are more colors than LEDs.
    pub fn set_leds(&mut self, colors: &[Color]) -> (res: Result<(), OpenRgbError>)
        ensures
            final(self).controller() == old(self).controller(),
            res is Ok <==> colors@.len() <= old(self).controller()@.num_leds,
            res is Ok ==> final(self).pending() == spec_assign_run(
                Map::<int, Color>::empty(),
                0,
                colors@,
            ),
            res matches Err(e) ==> *final(self) == *old(self) && e == OpenRgbError::CommandError(
                CommandError::RangeOutOfBounds {
                    start: 0,
                    count: colors@.len() as usize,
                    len: old(self).controller()@.num_leds,
                },
            ),
    {
        proof {
            use_type_invariant(&*self);
        }
        if colors.len() > self.colors.len() {
            return Err(
                OpenRgbError::CommandError(
                    CommandError::RangeOutOfBounds {
                        start: 0,
                        count: colors.len(),
                        len: self.colors.len(),
                    },
                ),
            );
        }
        let mut i: usize = 0;
        while i < self.colors.len()
            invariant
                i <= self.colors.len(),
                colors@.len() <= self.colors.len(),
                self.colors.len() == old(self).colors.len(),
                self.controller == old(self).controller,
                self.colors.len() == self.controller@.num_leds,
                forall|j: int|
                    0 <= j < i ==> #[trigger] self.colors[j] == if j < colors@.len() {
                        Some(colors[j])
                    } else {
                        None
                    },
            decreases self.colors.len() - i,
        {
            self.colors[i] = if i < colors.len() {
                Some(colors[i])
            } else {
                None
            };
            i += 1;
        }
        proof {
            assert(self.pending() =~= spec_assign_run(Map::<int, Color>::empty(), 0, colors@));
        }
        Ok(())
    }

    /// Assigns `color` to the LED at position `idx` of the zone at position
    /// `zone_id`, which is the LED of the controller at the zone's offset
    /// plus `idx`. Fails with `IndexOutOfBounds` and changes nothing where
    /// the controller has no such zone, or the zone no such LED.
    pub fn set_zone_led(&mut self, zone_id: usize, idx: usize, color: Color) -> (res: Result<
        (),
        OpenRgbError,
    >)
        ensures
            final(self).controller() == old(self).controller(),
            res is Ok <==> old(self).controller()@.has_zone(zone_id as int) && idx
                < old(self).controller()@.zone_len(zone_id as int),
            res is Ok ==> final(self).pending() == old(self).pending().insert(
                old(self).controller()@.zone_offset(zone_id as int) + idx,
                color,
            ),
            res is Err ==> *final(self) == *old(self),
            res is Err ==> res == Err::<(), OpenRgbError>(
                if !old(self).controller()@.has_zone(zone_id as int) {
                    old(self).controller()@.zone_error(zone_id)
                } else {
                    OpenRgbError::CommandError(
                        CommandError::IndexOutOfBounds {
                            index: idx,
                            len: old(self).controller()@.zone_len(zone_id as int) as usize,
                        },
                    )
                },
            ),
    {
        let (offset, len) = self.controller.zone_range(zone_id)?;
        if idx >= len {
            return Err(
                OpenRgbError::CommandError(CommandError::IndexOutOfBounds { index: idx, len }),
            );
        }
        let _ = self.set_led(offset + idx, color);
        Ok(())
    }

    /// Assigns `colors` to the LEDs of the zone at position `zone_id`, from
    /// its first LED on; LEDs of the zone beyond them keep what they had.
    /// Fails and changes nothing where the controller has no such zone
    /// (`IndexOutOfBounds`) or there are more colors than LEDs in the zone
    /// (`RangeOutOfBounds`).
    pub fn set_zone_leds(&mut self, zone_id: usize, colors: &[Color]) -> (res: Result<
        (),
        OpenRgbError,
    >)
        ensures
            final(self).controller() == old(self).controller(),
            res is Ok <==> old(self).controller()@.has_zone(zone_id as int) && colors@.len()
                <= old(self).controller()@.zone_len(zone_id as int),
            res is Ok ==> final(self).pending() == spec_assign_run(
                old(self).pending(),
                old(self).controller()@.zone_offset(zone_id as int) as int,
                colors@,
            ),
            res is Err ==> *final(self) == *old(self),
            res is Err ==> res == Err::<(), OpenRgbError>(
                if !old(self).controller()@.has_zone(zone_id as int) {
                    old(self).controller()@.zone_error(zone_id)
                } else {
                    OpenRgbError::CommandError(
                        CommandError::RangeOutOfBounds {
                            start: 0,
                            count: colors@.len() as usize,
                            len: old(self).controller()@.zone_len(zone_id as int) as usize,
                        },
                    )
                },
            ),
    {
        let (offset, len) = self.controller.zone_range(zone_id)?;
        if colors.len() > len {
            return Err(
                OpenRgbError::CommandError(
                    CommandError::RangeOutOfBounds { start: 0, count: colors.len(), len },
                ),
            );
        }
        self.assign_run(offset, colors);
        Ok(())
    }

    /// Assigns `color` to the LED at position `idx` of a segment, which is
    /// the LED of the controller at the zone's offset plus the segment's
    /// offset plus `idx`. Fails and changes nothing where the segment cannot
    /// be addressed, or has no such LED (`IndexOutOfBounds`).
    pub fn set_segment_led(
        &mut self,
        zone_id: usize,
        segment_id: usize,
        idx: usize,
        color: Color,
    ) -> (res: Result<(), OpenRgbError>)
        ensures
            final(self).controller() == old(self).controller(),
            res is Ok <==> old(self).controller()@.has_segment(zone_id as int, segment_id as int)
                && idx < old(self).controller()@.segment_len(zone_id as int, segment_id as int),
            res is Ok ==> final(self).pending() == old(self).pending().insert(
                old(self).controller()@.segment_offset(zone_id as int, segment_id as int) + idx,
                color,
            ),
            res is Err ==> *final(self) == *old(self),
            res is Err ==> res == Err::<(), OpenRgbError>(
                if !old(self).controller()@.has_segment(zone_id as int, segment_id as int) {
                    old(self).controller()@.segment_error(zone_id, segment_id)
                } else {
                    OpenRgbError::CommandError(
                        CommandError::IndexOutOfBounds {
                            index: idx,
                            len: old(self).controller()@.segment_len(
                                zone_id as int,
                                segment_id as int,
                            ) as usize,
                        },
                    )
                },
            ),
    {
        let (offset, len) = self.controller.segment_range(zone_id, segment_id)?;
        if idx >= len {
            return Err(
                OpenRgbError::CommandError(CommandError::IndexOutOfBounds { index: idx, len }),
            );
        }
        let _ = self.set_led(offset + idx, color);
        Ok(())
    }

    /// Assigns `colors` to the LEDs of a segment, from its first LED on; LEDs
    /// of the segment beyond them keep what they had. Fails and changes
    /// nothing where the segment cannot be addressed, or there are more
    /// colors than LEDs in the segment (`RangeOutOfBounds`).
    pub fn set_segment_leds(&mut self, zone_id: usize, segment_id: usize, colors: &[Color]) -> (res:
        Result<(), OpenRgbError>)
        ensures
            final(self).controller() == old(self).controller(),
            res is Ok <==> old(self).controller()@.has_segment(zone_id as int, segment_id as int)
                && colors@.len() <= old(self).controller()@.segment_len(
                zone_id as int,
                segment_id as int,
            ),
            res is Ok ==> final(self).pending() == spec_assign_run(
                old(self).pending(),
                old(self).controller()@.segment_offset(zone_id as int, segment_id as int) as int,
                colors@,
            ),
            res is Err ==> *final(self) == *old(self),
            res is Err ==> res == Err::<(), OpenRgbError>(
                if !old(self).controller()@.has_segment(zone_id as int, segment_id as int) {
                    old(self).controller()@.segment_error(zone_id, segment_id)
                } else {
                    OpenRgbError::CommandError(
                        CommandError::RangeOutOfBounds {
                            start: 0,
                            count: colors@.len() as usize,
                            len: old(self).controller()@.segment_len(
                                zone_id as int,
                                segment_id as int,
                            ) as usize,
                        },
                    )
                },
            ),
    {
        let (offset, len) = self.controller.segment_range(zone_id, segment_id)?;
        if colors.len() > len {
            return Err(
                OpenRgbError::CommandError(
                    CommandError::RangeOutOfBounds { start: 0, count: colors.len(), len },
                ),
            );
        }
        self.assign_run(offset, colors);
        Ok(())
    }

    /// The one request that carries the command out, which uses the command
    /// up: it sets every LED of the controller, those without an assignment
    /// to black.
    pub fn execute(self) -> (request: Request)
        ensures
            request@ == (RequestModel::UpdateLeds {
                controller_id: self.controller()@.id,
                colors: spec_materialize(self.pending(), self.controller()@.num_leds as nat),
            }),
    {
        Request::UpdateLeds { controller_id: self.controller.request_id(), colors: self.colors() }
    }

    /// The array that the command stands for: one color for each LED of the
    /// controller, the assigned one where one was assigned and black
    /// everywhere else.
    pub fn colors(&self) -> (colors: Vec<Color>)
        ensures
            colors@ == spec_materialize(self.pending(), self.controller()@.num_leds as nat),
    {
        proof {
            use_type_invariant(self);
        }
        let mut colors: Vec<Color> = Vec::new();
        let mut i: usize = 0;
        while i < self.colors.len()
            invariant
                i <= self.colors.len(),
                colors.len() == i,
                forall|j: int|
                    0 <= j < i ==> colors[j] == spec_materialize(
                        self.pending(),
                        self.colors.len() as nat,
                    )[j],
            decreases self.colors.len() - i,
        {
            let color = match self.colors[i] {
                Some(color) => color,
                None => Color::black(),
            };
            colors.push(color);
            i += 1;
        }
        proof {
            assert(colors@ =~= spec_materialize(self.pending(), self.colors.len() as nat));
        }
        colors
    }
}

/// Within a batch the last assignment to a position wins: assigning twice
/// leaves what assigning the second color alone leaves.
pub proof fn lemma_last_write_wins(
    pending: Map<int, Color>,
    len: nat,
    idx: int,
    first: Color,
    second: Color,
)
    requires
        0 <= idx < len,
    ensures
        pending.insert(idx, first).insert(idx, second) == pending.insert(idx, second),
        spec_materialize(pending.insert(idx, first).insert(idx, second), len)[idx] == second,
{
    assert(pending.insert(idx, first).insert(idx, second) =~= pending.insert(idx, second));
}

/// An assignment changes the array of a batch at its position and nowhere
/// else, and positions without an assignment are black.
pub proof fn lemma_materialize(pending: Map<int, Color>, len: nat, idx: int, color: Color)
    requires
        0 <= idx < len,
    ensures
        spec_materialize(pending.insert(idx, color), len) == spec_materialize(pending, len).update(
            idx,
            color,
        ),
        spec_materialize(pending, len).len() == len,
        forall|i: int|
            0 <= i < len && !pending.contains_key(i) ==> #[trigger] spec_materialize(
                pending,
                len,
            )[i] == Color::spec_black(),
{
    assert(spec_materialize(pending.insert(idx, color), len) =~= spec_materialize(
        pending,
        len,
    ).update(idx, color));
}

/// Colors assigned from a position on stand in the array from that position
/// on; the array is as it was everywhere else.
pub proof fn lemma_materialize_run(
    pending: Map<int, Color>,
    len: nat,
    start: int,
    colors: Seq<Color>,
)
    requires
        0 <= start,
        start + colors.len() <= len,
    ensures
        forall|i: int|
            0 <= i < len ==> #[trigger] spec_materialize(
                spec_assign_run(pending, start, colors),
                len,
            )[i] == if start <= i < start + colors.len() {
                colors[i - start]
            } else {
                spec_materialize(pending, len)[i]
            },
{
}

} // verus!

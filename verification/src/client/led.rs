//! The view of a single LED of a controller.

use vstd::prelude::*;
use crate::client::command::Command;
use crate::client::controller::Controller;
use crate::client::request::{Request, RequestModel};
use crate::data::color::Color;

verus! {

/// A single LED of a controller, for which the controller has a record and a
/// color.
#[derive(Debug, Clone, Copy, PartialEq, Eq)]
pub struct Led<'c> {
    id: usize,
    controller: &'c Controller,
}

impl<'c> Led<'c> {
    #[verifier::type_invariant]
    spec fn present(self) -> bool {
        self.id < self.controller@.leds.len() && self.id < self.controller@.colors.len()
    }

    /// The LED of `controller` at position `id`.
    pub closed spec fn spec_new(id: usize, controller: &'c Controller) -> Led<'c> {
        Led { id, controller }
    }

    /// The position of the LED among the LEDs of its controller.
    pub closed spec fn spec_id(&self) -> usize {
        self.id
    }

    /// The controller of the LED.
    pub closed spec fn spec_controller(&self) -> &'c Controller {
        self.controller
    }

    /// Whether this is the LED of `controller` at position `id`.
    pub open spec fn spec_is(&self, id: usize, controller: &'c Controller) -> bool {
        &&& *self == Led::spec_new(id, controller)
        &&& self.spec_id() == id
        &&& self.spec_controller() == controller
    }

    /// The LED of a controller at a position is at that position, of that
    /// controller.
    pub proof fn lemma_spec_new(id: usize, controller: &'c Controller)
        ensures
            Led::spec_new(id, controller).spec_is(id, controller),
    {
    }

    /// A view is the LED at its position in its controller, and nothing
    /// more.
    pub proof fn lemma_spec_is(self)
        ensures
            self.spec_is(self.spec_id(), self.spec_controller()),
    {
    }

    /// The LED of `parent` at position `id`.
    pub(crate) fn new(id: usize, parent: &'c Controller) -> (led: Led<'c>)
        requires
            id < parent@.leds.len(),
            id < parent@.colors.len(),
        ensures
            led.spec_is(id, parent),
    {
        Led { id, controller: parent }
    }

    /// The position of the LED among the LEDs of its controller, which is
    /// also the position of its color in the controller's array of colors.
    pub fn id(&self) -> (id: usize)
        ensures
            id == self.spec_id(),
            id < self.spec_controller()@.leds.len(),
            id < self.spec_controller()@.colors.len(),
    {
        proof {
            use_type_invariant(self);
        }
        self.id
    }

    /// The name of the LED.
    pub fn name(&self) -> (name: &'c str)
        ensures
            name@ == self.spec_controller()@.leds[self.spec_id() as int].name,
    {
        proof {
            use_type_invariant(self);
        }
        let leds = self.controller.led_data();
        assert(crate::protocol::sequence::spec_models(leds@)[self.id as int] == leds[self.id as int]@);
        leds[self.id].name()
    }

    /// The color of the LED in the snapshot.
    pub fn color(&self) -> (color: Color)
        ensures
            color == self.spec_controller()@.colors[self.spec_id() as int],
    {
        proof {
            use_type_invariant(self);
        }
        self.controller.colors()[self.id]
    }

    /// A command for the controller of the LED that assigns `color` to it and
    /// nothing else.
    pub fn cmd_with_color(&self, color: Color) -> (cmd: Command<'c>)
        ensures
            cmd.controller() == self.spec_controller(),
            cmd.pending() == Map::<int, Color>::empty().insert(self.spec_id() as int, color),
    {
        proof {
            use_type_invariant(self);
        }
        let mut cmd = self.controller.cmd();
        let leds: usize = self.controller.num_leds();
        assert(self.id < leds);
        let _ = cmd.set_led(self.id, color);
        cmd
    }

    /// The request that sets this LED alone to `color`.
    pub fn set_led(&self, color: Color) -> (request: Request)
        ensures
            request@ == (RequestModel::UpdateSingleLed {
                controller_id: self.spec_controller()@.id,
                led_id: self.spec_id(),
                color,
            }),
    {
        Request::UpdateSingleLed {
            controller_id: self.controller.request_id(),
            led_id: self.id,
            color,
        }
    }
}

} // verus!

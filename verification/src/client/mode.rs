//! The view of a mode of a controller, and the builder that changes the
//! parameters of a mode within what its capabilities allow.

use std::marker::PhantomData;
use vstd::prelude::*;
use crate::client::controller::Controller;
use crate::client::request::{Request, RequestModel};
use crate::data::kinds::Direction;
use crate::data::flags::ModeFlags;
use crate::data::mode::{ModeData, ModeModel};
use crate::error::{CommandError, OpenRgbError, Parameter};
use crate::protocol::text::text_eq;

verus! {

/// The kinds of modes. `Direct` is the mode in which a client sets the color
/// of each LED itself.
#[derive(Debug, Clone, Copy, Eq, PartialEq, Hash)]
pub enum ControllerModeKind<'c> {
    /// The LEDs are set one by one by the client.
    Direct,
    /// The LEDs show one fixed color.
    Static,
    /// A mode of the device's own; the name is the mode's.
    Custom(&'c str),
}

impl<'c> ControllerModeKind<'c> {
    /// Whether `name` names the direct mode.
    pub open spec fn spec_is_direct(name: Seq<char>) -> bool {
        name == "Direct"@ || name == "direct"@
    }

    /// Whether `name` names the static mode.
    pub open spec fn spec_is_static(name: Seq<char>) -> bool {
        name == "Static"@ || name == "static"@
    }

    /// Whether this is the kind of a mode named `name`: "Direct" or "direct"
    /// names the direct mode, "Static" or "static" the static mode, and every
    /// other name a mode of the device's own, which keeps the name.
    pub open spec fn spec_is_kind_of(self, name: Seq<char>) -> bool {
        if ControllerModeKind::spec_is_direct(name) {
            self is Direct
        } else if ControllerModeKind::spec_is_static(name) {
            self is Static
        } else {
            self matches ControllerModeKind::Custom(n) && n@ == name
        }
    }

    /// The kind of `mode`, which goes by its name.
    pub fn new(mode: &'c ModeData) -> (kind: ControllerModeKind<'c>)
        ensures
            kind.spec_is_kind_of(mode@.name),
    {
        let name = mode.name();
        if text_eq(name, "Direct") || text_eq(name, "direct") {
            ControllerModeKind::Direct
        } else if text_eq(name, "Static") || text_eq(name, "static") {
            ControllerModeKind::Static
        } else {
            ControllerModeKind::Custom(name)
        }
    }
}

/// A mode of a controller.
pub struct ControllerMode<'c> {
    data: &'c ModeData,
    kind: ControllerModeKind<'c>,
    is_active: bool,
}

impl<'c> ControllerMode<'c> {
    /// The record of the mode.
    pub closed spec fn spec_data(&self) -> &'c ModeData {
        self.data
    }

    /// The view of the mode with record `data`, active or not. Its kind goes
    /// by the name of the mode.
    pub fn new(data: &'c ModeData, is_active: bool) -> (mode: ControllerMode<'c>)
        ensures
            mode.spec_data() == data,
            mode.spec_is_active() == is_active,
            mode.spec_kind().spec_is_kind_of(data@.name),
    {
        let kind = ControllerModeKind::new(data);
        ControllerMode { data, kind, is_active }
    }

    /// The record of the mode.
    pub fn into_data(self) -> (data: &'c ModeData)
        ensures
            data == self.spec_data(),
    {
        self.data
    }

    /// The kind of the mode, which goes by its name.
    pub fn kind(&self) -> (kind: ControllerModeKind<'c>)
        ensures
            kind == self.spec_kind(),
    {
        self.kind
    }

    /// The kind of the mode.
    pub closed spec fn spec_kind(&self) -> ControllerModeKind<'c> {
        self.kind
    }

    /// Whether the mode is the active one of its controller.
    pub closed spec fn spec_is_active(&self) -> bool {
        self.is_active
    }

    /// Whether the mode is the active one of its controller.
    #[verifier::when_used_as_spec(spec_is_active)]
    pub fn is_active(&self) -> (active: bool)
        ensures
            active == self.spec_is_active(),
    {
        self.is_active
    }

    /// A builder that starts from a copy of this mode's record.
    pub fn builder(&self) -> (builder: ControllerModeBuilder<'c>)
        ensures
            builder@ == self.spec_data()@,
    {
        ControllerModeBuilder::new(self.data)
    }

    /// The name of the mode.
    pub fn name(&self) -> (name: &'c str)
        ensures
            name@ == self.spec_data()@.name,
    {
        self.data.name()
    }

    /// The capabilities of the mode.
    pub fn flags(&self) -> (flags: ModeFlags)
        ensures
            flags == self.spec_data()@.flags,
    {
        self.data.flags()
    }

    /// The speed of the mode, if it has one.
    pub fn speed(&self) -> (speed: Option<u32>)
        ensures
            speed == self.spec_data()@.speed,
    {
        self.data.speed()
    }

    /// The lowest speed that the device declares, if it declares one.
    pub fn speed_min(&self) -> (speed_min: Option<u32>)
        ensures
            speed_min == self.spec_data()@.speed_min,
    {
        self.data.speed_min()
    }

    /// The highest speed that the device declares, if it declares one.
    pub fn speed_max(&self) -> (speed_max: Option<u32>)
        ensures
            speed_max == self.spec_data()@.speed_max,
    {
        self.data.speed_max()
    }

    /// The brightness of the mode, if it has one.
    pub fn brightness(&self) -> (brightness: Option<u32>)
        ensures
            brightness == self.spec_data()@.brightness,
    {
        self.data.brightness()
    }

    /// The lowest brightness that the device declares, if it declares one.
    pub fn brightness_min(&self) -> (brightness_min: Option<u32>)
        ensures
            brightness_min == self.spec_data()@.brightness_min,
    {
        self.data.brightness_min()
    }

    /// The highest brightness that the device declares, if it declares one.
    pub fn brightness_max(&self) -> (brightness_max: Option<u32>)
        ensures
            brightness_max == self.spec_data()@.brightness_max,
    {
        self.data.brightness_max()
    }

    /// The direction of the mode, if it has one.
    pub fn direction(&self) -> (direction: Option<Direction>)
        ensures
            direction == self.spec_data()@.direction,
    {
        self.data.direction()
    }
}

/// A builder of a changed mode. It works on a copy of the mode's record; the
/// controller's snapshot stays as it is.
pub struct ControllerModeBuilder<'c> {
    data: ModeData,
    _phantom: PhantomData<&'c ()>,
}

impl<'c> View for ControllerModeBuilder<'c> {
    type V = ModeModel;

    closed spec fn view(&self) -> ModeModel {
        self.data@
    }
}

/// The error for a mode that lacks the capability for `parameter`.
pub open spec fn spec_unsupported(parameter: Parameter) -> CommandError {
    match parameter {
        Parameter::Speed => CommandError::SpeedUnsupported,
        Parameter::Brightness => CommandError::BrightnessUnsupported,
    }
}

/// What setting `parameter` to `value` returns for a mode that has the
/// capability or not and declares the bounds or not: nothing where the value
/// is accepted, the error where it is not.
pub open spec fn spec_check_ranged(
    parameter: Parameter,
    capable: bool,
    min: Option<u32>,
    max: Option<u32>,
    value: u32,
) -> Option<CommandError> {
    if !capable || min is None || max is None {
        Some(spec_unsupported(parameter))
    } else if value < min->0 || value > max->0 {
        Some(CommandError::OutOfRange { parameter, min: min->0, max: max->0, value })
    } else {
        None
    }
}

/// What setting `parameter` to `value` returns.
fn check_ranged(
    parameter: Parameter,
    capable: bool,
    min: Option<u32>,
    max: Option<u32>,
    value: u32,
) -> (res: Option<CommandError>)
    ensures
        res == spec_check_ranged(parameter, capable, min, max, value),
{
    let unsupported = match parameter {
        Parameter::Speed => CommandError::SpeedUnsupported,
        Parameter::Brightness => CommandError::BrightnessUnsupported,
    };
    if !capable {
        return Some(unsupported);
    }
    match (min, max) {
        (Some(min), Some(max)) => {
            if value < min || value > max {
                Some(CommandError::OutOfRange { parameter, min, max, value })
            } else {
                None
            }
        },
        _ => Some(unsupported),
    }
}

impl<'c> ControllerModeBuilder<'c> {
    /// A builder that starts from a copy of `data`.
    pub fn new(data: &ModeData) -> (builder: ControllerModeBuilder<'c>)
        ensures
            builder@ == data@,
    {
        ControllerModeBuilder { data: data.clone(), _phantom: PhantomData }
    }

    /// The record as it has been changed so far.
    pub fn data(&self) -> (data: &ModeData)
        ensures
            data@ == self@,
    {
        &self.data
    }

    /// The request that carries the changes out: it sets the mode of
    /// `controller` to the changed record. The snapshot of the controller
    /// stays as it is until its data is asked for again.
    pub fn execute(&self, controller: &Controller) -> (request: Request)
        ensures
            request@ == (RequestModel::UpdateMode { controller_id: controller@.id, mode: self@ }),
    {
        Request::UpdateMode { controller_id: controller.request_id(), mode: self.data.clone() }
    }

    /// What setting the speed to `speed` returns for a mode: nothing where
    /// the speed is accepted, `SpeedUnsupported` where the mode lacks the
    /// speed capability or one of the bounds, and `OutOfRange` with both
    /// bounds where the speed is outside them.
    pub open spec fn spec_speed_error(mode: ModeModel, speed: u32) -> Option<CommandError> {
        spec_check_ranged(
            Parameter::Speed,
            mode.flags.has_speed(),
            mode.speed_min,
            mode.speed_max,
            speed,
        )
    }

    /// What setting the brightness to `brightness` returns for a mode:
    /// nothing where it is accepted, `BrightnessUnsupported` where the mode
    /// lacks the brightness capability or one of the bounds, and `OutOfRange`
    /// with both bounds where the brightness is outside them.
    pub open spec fn spec_brightness_error(mode: ModeModel, brightness: u32) -> Option<
        CommandError,
    > {
        spec_check_ranged(
            Parameter::Brightness,
            mode.flags.has_brightness(),
            mode.brightness_min,
            mode.brightness_max,
            brightness,
        )
    }

    /// Sets the speed of the mode. Fails, and leaves the mode as it is, where
    /// the mode has no speed capability or declares no bounds
    /// (`SpeedUnsupported`), or where the speed is outside the bounds
    /// (`OutOfRange`).
    pub fn set_speed(&mut self, speed: u32) -> (res: Result<&mut Self, OpenRgbError>)
        ensures
            res is Ok <==> ControllerModeBuilder::spec_speed_error(old(self)@, speed) is None,
            res matches Ok(builder) ==> builder@ == (ModeModel { speed: Some(speed), ..old(self)@ })
                && *final(self) == *final(builder),
            res matches Err(e) ==> *final(self) == *old(self) && e == OpenRgbError::CommandError(
                ControllerModeBuilder::spec_speed_error(old(self)@, speed)->0,
            ),
    {
        match check_ranged(
            Parameter::Speed,
            self.data.flags().has_speed(),
            self.data.speed_min(),
            self.data.speed_max(),
            speed,
        ) {
            Some(e) => Err(OpenRgbError::CommandError(e)),
            None => {
                self.data.set_speed(speed);
                Ok(self)
            },
        }
    }

    /// Sets the speed of the mode to the lowest that the device declares.
    /// Fails as `set_speed` does.
    pub fn set_min_speed(&mut self) -> (res: Result<&mut Self, OpenRgbError>)
        ensures
            res is Ok <==> old(self)@.speed_min is Some && ControllerModeBuilder::spec_speed_error(
                old(self)@,
                old(self)@.speed_min->0,
            ) is None,
            res matches Ok(builder) ==> builder@ == (ModeModel {
                speed: old(self)@.speed_min,
                ..old(self)@
            }) && *final(self) == *final(builder),
            res matches Err(e) ==> *final(self) == *old(self) && e == OpenRgbError::CommandError(
                if old(self)@.speed_min is None {
                    CommandError::SpeedUnsupported
                } else {
                    ControllerModeBuilder::spec_speed_error(
                        old(self)@,
                        old(self)@.speed_min->0,
                    )->0
                },
            ),
    {
        match self.data.speed_min() {
            Some(min_speed) => self.set_speed(min_speed),
            None => Err(OpenRgbError::CommandError(CommandError::SpeedUnsupported)),
        }
    }

    /// Sets the speed of the mode to the highest that the device declares.
    /// Fails as `set_speed` does.
    pub fn set_max_speed(&mut self) -> (res: Result<&mut Self, OpenRgbError>)
        ensures
            res is Ok <==> old(self)@.speed_max is Some && ControllerModeBuilder::spec_speed_error(
                old(self)@,
                old(self)@.speed_max->0,
            ) is None,
            res matches Ok(builder) ==> builder@ == (ModeModel {
                speed: old(self)@.speed_max,
                ..old(self)@
            }) && *final(self) == *final(builder),
            res matches Err(e) ==> *final(self) == *old(self) && e == OpenRgbError::CommandError(
                if old(self)@.speed_max is None {
                    CommandError::SpeedUnsupported
                } else {
                    ControllerModeBuilder::spec_speed_error(
                        old(self)@,
                        old(self)@.speed_max->0,
                    )->0
                },
            ),
    {
        match self.data.speed_max() {
            Some(max_speed) => self.set_speed(max_speed),
            None => Err(OpenRgbError::CommandError(CommandError::SpeedUnsupported)),
        }
    }

    /// Sets the brightness of the mode. Fails, and leaves the mode as it is,
    /// where the mode has no brightness capability or declares no bounds
    /// (`BrightnessUnsupported`), or where the brightness is outside the
    /// bounds (`OutOfRange`).
    pub fn set_brightness(&mut self, brightness: u32) -> (res: Result<&mut Self, OpenRgbError>)
        ensures
            res is Ok <==> ControllerModeBuilder::spec_brightness_error(old(self)@, brightness)
                is None,
            res matches Ok(builder) ==> builder@ == (ModeModel {
                brightness: Some(brightness),
                ..old(self)@
            }) && *final(self) == *final(builder),
            res matches Err(e) ==> *final(self) == *old(self) && e == OpenRgbError::CommandError(
                ControllerModeBuilder::spec_brightness_error(old(self)@, brightness)->0,
            ),
    {
        match check_ranged(
            Parameter::Brightness,
            self.data.flags().has_brightness(),
            self.data.brightness_min(),
            self.data.brightness_max(),
            brightness,
        ) {
            Some(e) => Err(OpenRgbError::CommandError(e)),
            None => {
                self.data.set_brightness(brightness);
                Ok(self)
            },
        }
    }

    /// Sets the brightness of the mode to the highest that the device
    /// declares. Fails as `set_brightness` does.
    pub fn set_max_brightness(&mut self) -> (res: Result<&mut Self, OpenRgbError>)
        ensures
            res is Ok <==> old(self)@.brightness_max is Some
                && ControllerModeBuilder::spec_brightness_error(
                old(self)@,
                old(self)@.brightness_max->0,
            ) is None,
            res matches Ok(builder) ==> builder@ == (ModeModel {
                brightness: old(self)@.brightness_max,
                ..old(self)@
            }) && *final(self) == *final(builder),
            res matches Err(e) ==> *final(self) == *old(self) && e == OpenRgbError::CommandError(
                if old(self)@.brightness_max is None {
                    CommandError::BrightnessUnsupported
                } else {
                    ControllerModeBuilder::spec_brightness_error(
                        old(self)@,
                        old(self)@.brightness_max->0,
                    )->0
                },
            ),
    {
        match self.data.brightness_max() {
            Some(max_brightness) => self.set_brightness(max_brightness),
            None => Err(OpenRgbError::CommandError(CommandError::BrightnessUnsupported)),
        }
    }

    /// Sets the brightness of the mode to the lowest that the device
    /// declares. Fails as `set_brightness` does.
    pub fn set_min_brightness(&mut self) -> (res: Result<&mut Self, OpenRgbError>)
        ensures
            res is Ok <==> old(self)@.brightness_min is Some
                && ControllerModeBuilder::spec_brightness_error(
                old(self)@,
                old(self)@.brightness_min->0,
            ) is None,
            res matches Ok(builder) ==> builder@ == (ModeModel {
                brightness: old(self)@.brightness_min,
                ..old(self)@
            }) && *final(self) == *final(builder),
            res matches Err(e) ==> *final(self) == *old(self) && e == OpenRgbError::CommandError(
                if old(self)@.brightness_min is None {
                    CommandError::BrightnessUnsupported
                } else {
                    ControllerModeBuilder::spec_brightness_error(
                        old(self)@,
                        old(self)@.brightness_min->0,
                    )->0
                },
            ),
    {
        match self.data.brightness_min() {
            Some(min_brightness) => self.set_brightness(min_brightness),
            None => Err(OpenRgbError::CommandError(CommandError::BrightnessUnsupported)),
        }
    }

    /// Sets the direction of the mode. Fails with `DirectionUnsupported`, and
    /// leaves the mode as it is, where the mode has no direction capability.
    pub fn set_direction(&mut self, dir: Direction) -> (res: Result<&mut Self, OpenRgbError>)
        ensures
            res is Ok <==> old(self)@.flags.has_direction(),
            res matches Ok(builder) ==> builder@ == (ModeModel {
                direction: Some(dir),
                ..old(self)@
            }) && *final(self) == *final(builder),
            res matches Err(e) ==> *final(self) == *old(self) && e == OpenRgbError::CommandError(
                CommandError::DirectionUnsupported,
            ),
    {
        if !self.data.flags().has_direction() {
            return Err(OpenRgbError::CommandError(CommandError::DirectionUnsupported));
        }
        self.data.set_direction(dir);
        Ok(self)
    }
}

/// A mode without the speed capability refuses every speed; a mode with the
/// capability and both bounds refuses a speed outside them with an error that
/// names both bounds and the speed, and accepts every speed inside them.
pub proof fn lemma_speed_rules(mode: ModeModel, speed: u32)
    ensures
        !mode.flags.has_speed() ==> ControllerModeBuilder::spec_speed_error(mode, speed) == Some(
            CommandError::SpeedUnsupported,
        ),
        mode.flags.has_speed() && mode.speed_min is Some && mode.speed_max is Some && (speed
            < mode.speed_min->0 || speed > mode.speed_max->0)
            ==> ControllerModeBuilder::spec_speed_error(mode, speed) == Some(
            CommandError::OutOfRange {
                parameter: Parameter::Speed,
                min: mode.speed_min->0,
                max: mode.speed_max->0,
                value: speed,
            },
        ),
        mode.flags.has_speed() && mode.speed_min is Some && mode.speed_max is Some
            && mode.speed_min->0 <= speed <= mode.speed_max->0
            ==> ControllerModeBuilder::spec_speed_error(mode, speed) is None,
{
}

} // verus!

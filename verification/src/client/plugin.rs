//! The extensions of the server that this client knows by name.

use vstd::prelude::*;
use vstd::std_specs::convert::FromSpecImpl;
use crate::data::plugin::PluginData;
use crate::protocol::text::text_eq;

verus! {

/// An extension of the server.
#[derive(Debug, Clone, PartialEq, Eq)]
pub enum OpenRgbPlugin {
    /// The effects extension.
    Effects,
    /// The visual map extension.
    VisualMap,
    /// The hardware sync extension.
    HardwareSync,
    /// The fan sync extension.
    FanSync,
    /// The E1.31 receiver extension.
    E131Receiver,
    /// The scheduler extension.
    Scheduler,
    /// An extension that this client does not know; the name is the
    /// extension's.
    Unknown(String),
}

impl OpenRgbPlugin {
    /// The name under which the server lists the extension.
    pub open spec fn spec_name(&self) -> Seq<char> {
        match *self {
            OpenRgbPlugin::Effects => "OpenRGB Effects Plugin"@,
            OpenRgbPlugin::VisualMap => "Visual Map"@,
            OpenRgbPlugin::HardwareSync => "Hardware Sync"@,
            OpenRgbPlugin::FanSync => "Fan Sync"@,
            OpenRgbPlugin::E131Receiver => "E131 Receiver"@,
            OpenRgbPlugin::Scheduler => "Scheduler"@,
            OpenRgbPlugin::Unknown(name) => name@,
        }
    }

    /// Whether this is the extension that the server lists under `name`: the
    /// first in the table with that name, or the unknown extension of that
    /// name where the table has none.
    pub open spec fn spec_is_named(&self, name: Seq<char>) -> bool {
        if name == "OpenRGB Effects Plugin"@ {
            *self is Effects
        } else if name == "Visual Map"@ {
            *self is VisualMap
        } else if name == "Hardware Sync"@ {
            *self is HardwareSync
        } else if name == "Fan Sync"@ {
            *self is FanSync
        } else if name == "E131 Receiver"@ {
            *self is E131Receiver
        } else if name == "Scheduler"@ {
            *self is Scheduler
        } else {
            *self matches OpenRgbPlugin::Unknown(n) && n@ == name
        }
    }

    /// The extension that the name of `value` names in the table; the
    /// unknown extension that holds that name where the table has none.
    pub open spec fn spec_of_record(value: PluginData) -> OpenRgbPlugin {
        if value@.name == "OpenRGB Effects Plugin"@ {
            OpenRgbPlugin::Effects
        } else if value@.name == "Visual Map"@ {
            OpenRgbPlugin::VisualMap
        } else if value@.name == "Hardware Sync"@ {
            OpenRgbPlugin::HardwareSync
        } else if value@.name == "Fan Sync"@ {
            OpenRgbPlugin::FanSync
        } else if value@.name == "E131 Receiver"@ {
            OpenRgbPlugin::E131Receiver
        } else if value@.name == "Scheduler"@ {
            OpenRgbPlugin::Scheduler
        } else {
            OpenRgbPlugin::Unknown(value.spec_name_text())
        }
    }

    /// The extension that the server lists under `name`.
    pub fn from_name(name: &str) -> (plugin: OpenRgbPlugin)
        ensures
            plugin.spec_is_named(name@),
            plugin.spec_name() == name@,
    {
        if text_eq(name, "OpenRGB Effects Plugin") {
            OpenRgbPlugin::Effects
        } else if text_eq(name, "Visual Map") {
            OpenRgbPlugin::VisualMap
        } else if text_eq(name, "Hardware Sync") {
            OpenRgbPlugin::HardwareSync
        } else if text_eq(name, "Fan Sync") {
            OpenRgbPlugin::FanSync
        } else if text_eq(name, "E131 Receiver") {
            OpenRgbPlugin::E131Receiver
        } else if text_eq(name, "Scheduler") {
            OpenRgbPlugin::Scheduler
        } else {
            OpenRgbPlugin::Unknown(name.to_owned())
        }
    }

    /// The name under which the server lists the extension.
    pub fn name(&self) -> (name: &str)
        ensures
            name@ == self.spec_name(),
    {
        match self {
            OpenRgbPlugin::Effects => "OpenRGB Effects Plugin",
            OpenRgbPlugin::VisualMap => "Visual Map",
            OpenRgbPlugin::HardwareSync => "Hardware Sync",
            OpenRgbPlugin::FanSync => "Fan Sync",
            OpenRgbPlugin::E131Receiver => "E131 Receiver",
            OpenRgbPlugin::Scheduler => "Scheduler",
            OpenRgbPlugin::Unknown(name) => name.as_str(),
        }
    }
}

impl From<PluginData> for OpenRgbPlugin {
    /// The extension that the server lists under the name of the record: the
    /// one that the table has for that name, or the unknown extension where
    /// the table has none. Either way its name is the record's name.
    fn from(value: PluginData) -> (plugin: OpenRgbPlugin)
        ensures
            plugin == OpenRgbPlugin::spec_of_record(value),
            plugin.spec_is_named(value@.name),
            plugin.spec_name() == value@.name,
    {
        let name = value.name();
        if text_eq(name, "OpenRGB Effects Plugin") {
            OpenRgbPlugin::Effects
        } else if text_eq(name, "Visual Map") {
            OpenRgbPlugin::VisualMap
        } else if text_eq(name, "Hardware Sync") {
            OpenRgbPlugin::HardwareSync
        } else if text_eq(name, "Fan Sync") {
            OpenRgbPlugin::FanSync
        } else if text_eq(name, "E131 Receiver") {
            OpenRgbPlugin::E131Receiver
        } else if text_eq(name, "Scheduler") {
            OpenRgbPlugin::Scheduler
        } else {
            OpenRgbPlugin::Unknown(value.into_name())
        }
    }
}

impl FromSpecImpl<PluginData> for OpenRgbPlugin {
    open spec fn obeys_from_spec() -> bool {
        true
    }

    open spec fn from_spec(value: PluginData) -> OpenRgbPlugin {
        OpenRgbPlugin::spec_of_record(value)
    }
}

/// The extension made from a record is the one that the table has for the
/// record's name, or the unknown extension of that name; no name is lost or
/// changed.
pub proof fn lemma_plugin_of_record(value: PluginData)
    ensures
        OpenRgbPlugin::spec_of_record(value).spec_is_named(value@.name),
        OpenRgbPlugin::spec_of_record(value).spec_name() == value@.name,
        OpenRgbPlugin::spec_of_record(value) is Unknown <==> !(value@.name == "OpenRGB Effects Plugin"@
            || value@.name == "Visual Map"@ || value@.name == "Hardware Sync"@ || value@.name
            == "Fan Sync"@ || value@.name == "E131 Receiver"@ || value@.name == "Scheduler"@),
{
    value.lemma_name_text();
}

} // verus!

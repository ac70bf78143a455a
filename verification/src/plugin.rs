//! The plugin core assembled: parameter store, event bridge and editor
//! lifecycle built together, plus the metadata and capability answers the
//! host queries through its ABI.

use vstd::prelude::*;

use crate::bridge::push_all;
use crate::bridge::EventBridge;
use crate::bridge::BRIDGE_CAPACITY;
use crate::editor::EditorLifecycle;
use crate::engine::process_event_batch;
use crate::midi::MidiRecord;
use crate::params::ParamStore;
use crate::params::AMPLITUDE_DEFAULT;

verus! {

/// The category the plugin reports to the host.
#[derive(Clone, Copy, PartialEq, Eq, Structural, Debug)]
pub enum PluginCategory {
    Effect,
    Other,
}

/// Plugin metadata, handed to the host when it asks who is loaded.
pub struct PluginInfo {
    pub name: String,
    pub vendor: String,
    pub unique_id: i32,
    pub version: i32,
    pub inputs: i32,
    pub outputs: i32,
    pub parameters: i32,
    pub category: PluginCategory,
}

/// Builds the plugin's metadata: a stereo gain effect with one parameter.
pub fn plugin_info() -> (info: PluginInfo)
    ensures
        info.name@ == "Iced Gain Effect in Rust"@,
        info.vendor@ == "jpostel"@,
        info.unique_id == 243123073,
        info.version == 3,
        info.inputs == 2,
        info.outputs == 2,
        info.parameters == 1,
        info.category == PluginCategory::Effect,
{
    PluginInfo {
        name: String::from_str("Iced Gain Effect in Rust"),
        vendor: String::from_str("jpostel"),
        unique_id: 243123073,
        version: 3,
        inputs: 2,
        outputs: 2,
        parameters: 1,
        category: PluginCategory::Effect,
    }
}

/// A host capability query, reduced to what the plugin distinguishes:
/// the four MIDI-event capabilities it claims, and everything else.
#[derive(Clone, Copy, PartialEq, Eq, Structural, Debug)]
pub enum HostCapability {
    SendEvents,
    SendMidiEvent,
    ReceiveEvents,
    ReceiveMidiEvent,
    Other,
}

/// The plugin's answer to a capability query.
#[derive(Clone, Copy, PartialEq, Eq, Structural, Debug)]
pub enum CapabilitySupport {
    Yes,
    Maybe,
}

/// Answers a capability query: sending and receiving (MIDI) events is
/// supported; every other capability is answered "maybe", never an error.
pub fn capability(query: HostCapability) -> (s: CapabilitySupport)
    ensures
        s == (if query is Other {
            CapabilitySupport::Maybe
        } else {
            CapabilitySupport::Yes
        }),
{
    match query {
        HostCapability::SendEvents => CapabilitySupport::Yes,
        HostCapability::SendMidiEvent => CapabilitySupport::Yes,
        HostCapability::ReceiveEvents => CapabilitySupport::Yes,
        HostCapability::ReceiveMidiEvent => CapabilitySupport::Yes,
        HostCapability::Other => CapabilitySupport::Maybe,
    }
}

/// The plugin core: the three long-lived pieces built together at plugin
/// construction and shared, at the host boundary, between the audio thread
/// and the UI thread.
pub struct GainPlugin {
    pub params: ParamStore,
    pub bridge: EventBridge,
    pub editor: EditorLifecycle,
}

impl GainPlugin {
    /// Well-formedness of every piece.
    pub open spec fn wf(self) -> bool {
        &&& self.params.wf()
        &&& self.bridge.wf()
    }

    /// Builds the core: amplitude at its default, an empty bridge of the
    /// standard capacity, and a detached editor.
    pub fn new() -> (p: GainPlugin)
        ensures
            p.wf(),
            p.params.amplitude_spec() == AMPLITUDE_DEFAULT,
            p.bridge@ == Seq::<MidiRecord>::empty(),
            p.bridge.capacity() == BRIDGE_CAPACITY,
            !p.editor.is_open_spec(),
    {
        GainPlugin {
            params: ParamStore::new(),
            bridge: EventBridge::new(),
            editor: EditorLifecycle::new(),
        }
    }

    /// Forwards a host event batch into the bridge; the parameter store and
    /// the editor lifecycle are untouched.
    pub fn process_events(&mut self, batch: &Vec<MidiRecord>)
        requires
            old(self).wf(),
        ensures
            final(self).wf(),
            final(self).bridge.capacity() == old(self).bridge.capacity(),
            final(self).bridge@ == push_all(
                old(self).bridge@,
                old(self).bridge.capacity(),
                batch@,
            ),
            final(self).params == old(self).params,
            final(self).editor == old(self).editor,
    {
        process_event_batch(&mut self.bridge, batch);
    }
}

} // verus!

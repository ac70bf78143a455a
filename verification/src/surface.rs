//! Decisions of the UI surface's refresh tick.
//!
//! The toolkit that draws widgets and delivers input events lives outside
//! the core; what the core owns is what a tick *decides*: which record
//! becomes the displayed "last seen note", and what a slider move writes
//! into the parameter store.

use vstd::prelude::*;

use crate::bridge::EventBridge;
use crate::midi::MidiRecord;
use crate::midi::NOTE_ON_STATUS;
use crate::params::clamped;
use crate::params::ParamStore;

verus! {

/// One refresh-tick drain of the event bridge: at most one record is taken
/// from the front; the displayed note advances only when that record is a
/// "note on" message, and otherwise — or when the bridge is empty — the
/// previous note stays on display.
pub fn observe_event(bridge: &mut EventBridge, last_note: MidiRecord) -> (shown: MidiRecord)
    requires
        old(bridge).wf(),
    ensures
        final(bridge).wf(),
        final(bridge).capacity() == old(bridge).capacity(),
        old(bridge)@.len() == 0 ==> final(bridge)@ == old(bridge)@ && shown == last_note,
        old(bridge)@.len() > 0 ==> final(bridge)@ == old(bridge)@.drop_first() && shown == (
        if old(bridge)@[0].status == NOTE_ON_STATUS {
            old(bridge)@[0]
        } else {
            last_note
        }),
{
    match bridge.pop() {
        Some(record) => {
            if record.is_note_on() {
                record
            } else {
                last_note
            }
        },
        None => last_note,
    }
}

/// Translates a slider move into a parameter write: the slider position is
/// the amplitude in hundredths, stored under the store's clamping policy.
pub fn slider_changed(store: &mut ParamStore, slider_value: u32)
    ensures
        final(store).wf(),
        final(store).amplitude_spec() == clamped(slider_value),
{
    store.set(slider_value);
}

} // verus!

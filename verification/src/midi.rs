//! The fixed-size MIDI event record carried from the audio thread to the UI.

use vstd::prelude::*;

verus! {

/// Status byte that marks a short-message "note on" event; the UI surface
/// only reacts to records whose status byte carries this value.
pub const NOTE_ON_STATUS: u8 = 144;

/// One MIDI short message: a three-byte payload as the host ABI delivers it.
/// Immutable once enqueued into the event bridge.
#[derive(Clone, Copy, PartialEq, Eq, Structural, Debug)]
pub struct MidiRecord {
    pub status: u8,
    pub data1: u8,
    pub data2: u8,
}

impl MidiRecord {
    /// Builds a record from the three payload bytes.
    pub fn new(status: u8, data1: u8, data2: u8) -> (r: MidiRecord)
        ensures
            r == (MidiRecord { status, data1, data2 }),
    {
        MidiRecord { status, data1, data2 }
    }

    /// Whether this record is a "note on" message.
    pub fn is_note_on(&self) -> (r: bool)
        ensures
            r == (self.status == NOTE_ON_STATUS),
    {
        self.status == NOTE_ON_STATUS
    }
}

} // verus!

//! The audio engine's share of the core: forwarding host-delivered MIDI
//! records into the event bridge.
//!
//! The engine's other duty, the per-sample gain multiply, operates on the
//! host's floating-point buffers and stays at the host boundary; the core
//! fixes the amplitude it reads through [`crate::params::ParamStore`].

use vstd::prelude::*;

use crate::bridge::lemma_push_all_snoc;
use crate::bridge::push_all;
use crate::bridge::EventBridge;
use crate::midi::MidiRecord;

verus! {

/// Forwards one host event batch into the bridge, record by record in
/// delivery order. A record that finds the ring full is dropped — the
/// audio thread never waits for the UI thread to drain.
pub fn process_event_batch(bridge: &mut EventBridge, batch: &Vec<MidiRecord>)
    requires
        old(bridge).wf(),
    ensures
        final(bridge).wf(),
        final(bridge).capacity() == old(bridge).capacity(),
        final(bridge)@ == push_all(old(bridge)@, old(bridge).capacity(), batch@),
{
    let ghost start = old(bridge)@;
    let ghost cap = old(bridge).capacity();
    let mut i: usize = 0;
    while i < batch.len()
        invariant
            i <= batch@.len(),
            bridge.wf(),
            bridge.capacity() == cap,
            bridge@ == push_all(start, cap, batch@.take(i as int)),
        decreases batch@.len() - i,
    {
        let _ = bridge.push(batch[i]);
        proof {
            lemma_push_all_snoc(start, cap, batch@.take(i as int), batch@[i as int]);
            assert(batch@.take(i as int).push(batch@[i as int]) =~= batch@.take(i + 1));
        }
        i = i + 1;
    }
    proof {
        assert(batch@.take(batch@.len() as int) =~= batch@);
    }
}

} // verus!

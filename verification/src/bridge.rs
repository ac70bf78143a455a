//! The event bridge: a bounded queue of MIDI records filled by the audio
//! engine and drained by the UI surface.
//!
//! The queue is a fixed-capacity ring. A push on a full ring fails and drops
//! the newest record; records already queued are never displaced, never
//! duplicated, and leave in first-in-first-out order. The ring is owned by a
//! single owner at a time; handing its two ends to the two threads of the
//! host process happens outside the core.

use vstd::prelude::*;

use crate::midi::MidiRecord;

verus! {

/// Capacity of the bridge as the plugin sizes it.
pub const BRIDGE_CAPACITY: usize = 1000;

/// Bounded first-in-first-out queue of MIDI records.
pub struct EventBridge {
    slots: Vec<MidiRecord>,
    head: usize,
    count: usize,
}

/// What one push does to the queued records: the record is appended when
/// there is room, and dropped when the queue is full.
pub open spec fn push_model(s: Seq<MidiRecord>, cap: nat, r: MidiRecord) -> Seq<MidiRecord> {
    if s.len() < cap {
        s.push(r)
    } else {
        s
    }
}

/// What pushing a whole batch, record by record in order, does to the
/// queued records.
pub open spec fn push_all(s: Seq<MidiRecord>, cap: nat, batch: Seq<MidiRecord>) -> Seq<MidiRecord>
    decreases batch.len(),
{
    if batch.len() == 0 {
        s
    } else {
        push_all(push_model(s, cap, batch[0]), cap, batch.drop_first())
    }
}

impl EventBridge {
    /// Fixed number of records the ring can hold at once.
    pub closed spec fn capacity(self) -> nat {
        self.slots@.len()
    }

    /// Well-formedness: the ring storage is non-empty and the indices stay
    /// in range.
    pub closed spec fn wf(self) -> bool {
        &&& self.slots@.len() > 0
        &&& self.head < self.slots@.len()
        &&& self.count <= self.slots@.len()
    }

    /// Position in the ring storage of the i-th queued record.
    spec fn slot_of(self, i: int) -> int {
        if self.head + i < self.slots@.len() {
            self.head + i
        } else {
            self.head + i - self.slots@.len()
        }
    }

    /// Builds an empty bridge holding up to `cap` records.
    pub fn with_capacity(cap: usize) -> (b: EventBridge)
        requires
            cap > 0,
        ensures
            b.wf(),
            b.capacity() == cap,
            b@ == Seq::<MidiRecord>::empty(),
    {
        let blank = MidiRecord::new(0, 0, 0);
        let mut slots: Vec<MidiRecord> = Vec::new();
        while slots.len() < cap
            invariant
                slots@.len() <= cap,
            decreases cap - slots@.len(),
        {
            slots.push(blank);
        }
        let b = EventBridge { slots, head: 0, count: 0 };
        proof {
            assert(b@ =~= Seq::<MidiRecord>::empty());
        }
        b
    }

    /// Builds an empty bridge of the plugin's standard sizing.
    pub fn new() -> (b: EventBridge)
        ensures
            b.wf(),
            b.capacity() == BRIDGE_CAPACITY,
            b@ == Seq::<MidiRecord>::empty(),
    {
        EventBridge::with_capacity(BRIDGE_CAPACITY)
    }

    /// Number of records currently queued.
    pub fn len(&self) -> (n: usize)
        requires
            self.wf(),
        ensures
            n == self@.len(),
    {
        self.count
    }

    /// Whether no record is queued.
    pub fn is_empty(&self) -> (r: bool)
        requires
            self.wf(),
        ensures
            r == (self@.len() == 0),
    {
        self.count == 0
    }

    /// Whether the ring is full, so that the next push would fail.
    pub fn is_full(&self) -> (r: bool)
        requires
            self.wf(),
        ensures
            r == (self@.len() == self.capacity()),
    {
        self.count == self.slots.len()
    }

    /// Producer end: appends a record if there is room, and otherwise drops
    /// it, reporting failure without touching the queued records.
    pub fn push(&mut self, r: MidiRecord) -> (ok: bool)
        requires
            old(self).wf(),
        ensures
            final(self).wf(),
            final(self).capacity() == old(self).capacity(),
            ok == (old(self)@.len() < old(self).capacity()),
            final(self)@ == push_model(old(self)@, old(self).capacity(), r),
    {
        let cap = self.slots.len();
        if self.count == cap {
            return false;
        }
        let idx = if self.head >= cap - self.count {
            self.head - (cap - self.count)
        } else {
            self.head + self.count
        };
        self.slots.set(idx, r);
        self.count = self.count + 1;
        proof {
            let prev = *old(self);
            assert forall|i: int| 0 <= i < prev.count implies self.slot_of(i) != idx by {
                assert(prev.slot_of(i) == self.slot_of(i));
            }
            assert(self.slot_of(prev.count as int) == idx);
            assert(self@ =~= prev@.push(r));
        }
        true
    }

    /// Consumer end: removes and returns the oldest queued record, or
    /// reports absence when the queue is empty.
    pub fn pop(&mut self) -> (r: Option<MidiRecord>)
        requires
            old(self).wf(),
        ensures
            final(self).wf(),
            final(self).capacity() == old(self).capacity(),
            old(self)@.len() == 0 ==> r is None && final(self)@ == old(self)@,
            old(self)@.len() > 0 ==> r == Some(old(self)@[0]) && final(self)@ == old(
                self,
            )@.drop_first(),
    {
        if self.count == 0 {
            return None;
        }
        let r = self.slots[self.head];
        let cap = self.slots.len();
        self.head = if self.head == cap - 1 {
            0
        } else {
            self.head + 1
        };
        self.count = self.count - 1;
        proof {
            let prev = *old(self);
            assert forall|i: int| 0 <= i < self.count implies self.slot_of(i) == prev.slot_of(
                i + 1,
            ) by {}
            assert(self@ =~= prev@.drop_first());
        }
        Some(r)
    }
}

impl View for EventBridge {
    type V = Seq<MidiRecord>;

    /// The queued records, oldest first.
    closed spec fn view(&self) -> Seq<MidiRecord> {
        Seq::new(self.count as nat, |i: int| self.slots@[self.slot_of(i)])
    }
}

/// Pushing a batch and then one more record is pushing the batch extended
/// by that record.
pub proof fn lemma_push_all_snoc(s: Seq<MidiRecord>, cap: nat, batch: Seq<MidiRecord>, r: MidiRecord)
    ensures
        push_all(s, cap, batch.push(r)) == push_model(push_all(s, cap, batch), cap, r),
    decreases batch.len(),
{
    if batch.len() == 0 {
        assert(batch.push(r)[0] == r);
        assert(batch.push(r).drop_first() =~= Seq::<MidiRecord>::empty());
        assert(push_all(s, cap, batch.push(r)) == push_all(
            push_model(s, cap, r),
            cap,
            Seq::<MidiRecord>::empty(),
        ));
        assert(push_all(push_model(s, cap, r), cap, Seq::<MidiRecord>::empty()) == push_model(
            s,
            cap,
            r,
        ));
    } else {
        lemma_push_all_snoc(push_model(s, cap, batch[0]), cap, batch.drop_first(), r);
        assert(batch.push(r)[0] == batch[0]);
        assert(batch.push(r).drop_first() =~= batch.drop_first().push(r));
        assert(push_all(s, cap, batch.push(r)) == push_all(
            push_model(s, cap, batch[0]),
            cap,
            batch.drop_first().push(r),
        ));
    }
}

/// First-in-first-out law: a batch that fits entirely within the remaining
/// room is queued whole, behind what was already queued and in push order;
/// with `pop` returning the front record, pops then deliver the records in
/// exactly the order they were pushed.
pub proof fn lemma_push_all_within(s: Seq<MidiRecord>, cap: nat, batch: Seq<MidiRecord>)
    requires
        s.len() + batch.len() <= cap,
    ensures
        push_all(s, cap, batch) == s + batch,
    decreases batch.len(),
{
    if batch.len() == 0 {
        assert(push_all(s, cap, batch) =~= s + batch);
    } else {
        lemma_push_all_within(s.push(batch[0]), cap, batch.drop_first());
        assert(s.push(batch[0]) + batch.drop_first() =~= s + batch);
    }
}

/// Overflow law: once the queue is full, further pushes fail and leave the
/// queued records untouched — the newest arrivals are dropped, never the
/// records already queued.
pub proof fn lemma_push_all_overflow(s: Seq<MidiRecord>, cap: nat, batch: Seq<MidiRecord>)
    requires
        s.len() >= cap,
    ensures
        push_all(s, cap, batch) == s,
    decreases batch.len(),
{
    if batch.len() > 0 {
        lemma_push_all_overflow(s, cap, batch.drop_first());
    }
}

/// General shape of a batch push: exactly the prefix of the batch that fits
/// is appended, and the rest is dropped.
pub proof fn lemma_push_all_take(s: Seq<MidiRecord>, cap: nat, batch: Seq<MidiRecord>)
    requires
        s.len() <= cap,
    ensures
        push_all(s, cap, batch) == s + batch.take(
            if batch.len() <= cap - s.len() {
                batch.len() as int
            } else {
                cap - s.len()
            },
        ),
    decreases batch.len(),
{
    let room = cap - s.len();
    if batch.len() <= room {
        lemma_push_all_within(s, cap, batch);
        assert(batch.take(batch.len() as int) =~= batch);
    } else if room == 0 {
        lemma_push_all_overflow(s, cap, batch);
        assert(s + batch.take(0) =~= s);
    } else {
        lemma_push_all_take(s.push(batch[0]), cap, batch.drop_first());
        assert(s.push(batch[0]) + batch.drop_first().take(room - 1) =~= s + batch.take(
            room as int,
        ));
    }
}

} // verus!

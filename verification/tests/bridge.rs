use gain_plugin::bridge::EventBridge;
use gain_plugin::bridge::BRIDGE_CAPACITY;
use gain_plugin::midi::MidiRecord;

#[test]
fn fifo_order_within_capacity() {
    let mut b = EventBridge::with_capacity(8);
    let records = [
        MidiRecord::new(144, 60, 100),
        MidiRecord::new(128, 60, 0),
        MidiRecord::new(144, 64, 90),
        MidiRecord::new(176, 1, 42),
    ];
    for r in records.iter() {
        assert!(b.push(*r));
    }
    for r in records.iter() {
        assert_eq!(b.pop(), Some(*r));
    }
    assert_eq!(b.pop(), None);
}

#[test]
fn fifo_order_across_wraparound() {
    let mut b = EventBridge::with_capacity(3);
    assert!(b.push(MidiRecord::new(1, 1, 1)));
    assert!(b.push(MidiRecord::new(2, 2, 2)));
    assert_eq!(b.pop(), Some(MidiRecord::new(1, 1, 1)));
    assert!(b.push(MidiRecord::new(3, 3, 3)));
    assert!(b.push(MidiRecord::new(4, 4, 4)));
    assert!(b.is_full());
    assert_eq!(b.pop(), Some(MidiRecord::new(2, 2, 2)));
    assert_eq!(b.pop(), Some(MidiRecord::new(3, 3, 3)));
    assert_eq!(b.pop(), Some(MidiRecord::new(4, 4, 4)));
    assert_eq!(b.pop(), None);
    assert!(b.is_empty());
}

#[test]
fn overflow_drops_newest_keeps_queued_order() {
    let mut b = EventBridge::new();
    for i in 0..BRIDGE_CAPACITY {
        let r = MidiRecord::new(144, (i % 128) as u8, ((i / 128) % 128) as u8);
        assert!(b.push(r));
    }
    // The ring now holds exactly its capacity of 1000 records: one more
    // push must fail without blocking.
    assert!(b.is_full());
    assert!(!b.push(MidiRecord::new(99, 99, 99)));
    assert_eq!(b.len(), BRIDGE_CAPACITY);
    // The queued records come out untouched and in their push order.
    for i in 0..BRIDGE_CAPACITY {
        let expected = MidiRecord::new(144, (i % 128) as u8, ((i / 128) % 128) as u8);
        assert_eq!(b.pop(), Some(expected));
    }
    assert_eq!(b.pop(), None);
}

#[test]
fn pop_on_empty_returns_none() {
    let mut b = EventBridge::with_capacity(4);
    assert!(b.is_empty());
    assert_eq!(b.pop(), None);
    assert_eq!(b.len(), 0);
}

#[test]
fn standard_sizing_is_one_thousand() {
    let mut b = EventBridge::new();
    let mut pushed = 0usize;
    while b.push(MidiRecord::new(0, 0, 0)) {
        pushed += 1;
    }
    assert_eq!(pushed, 1000);
}

use std::collections::HashSet;

use widget_driver::outgoing::{u64_to_dec_string, OutgoingRequests};

#[test]
fn decimal_rendering_is_exact() {
    assert_eq!(u64_to_dec_string(0), "0");
    assert_eq!(u64_to_dec_string(7), "7");
    assert_eq!(u64_to_dec_string(10), "10");
    assert_eq!(u64_to_dec_string(42), "42");
    assert_eq!(u64_to_dec_string(1234567890), "1234567890");
}

#[test]
fn a_thousand_ids_are_all_distinct() {
    let mut tracker: OutgoingRequests<usize> = OutgoingRequests::new();
    let mut seen: HashSet<String> = HashSet::new();
    for k in 0..1000usize {
        let id = tracker.register(k);
        assert!(seen.insert(id), "an issued header id repeated");
    }
    assert_eq!(seen.len(), 1000);
}

#[test]
fn responses_route_to_their_originators() {
    let mut tracker: OutgoingRequests<&str> = OutgoingRequests::new();
    let id_a = tracker.register("slot a");
    let id_b = tracker.register("slot b");
    let id_c = tracker.register("slot c");

    // Out of order is fine: pairing is by header id only.
    assert_eq!(tracker.resolve(&id_b), Some("slot b"));
    assert_eq!(tracker.resolve(&id_c), Some("slot c"));
    assert_eq!(tracker.resolve(&id_a), Some("slot a"));
}

#[test]
fn untracked_or_repeated_ids_resolve_nothing() {
    let mut tracker: OutgoingRequests<&str> = OutgoingRequests::new();
    let id = tracker.register("only");
    assert_eq!(tracker.resolve("999"), None);
    assert_eq!(tracker.resolve(&id), Some("only"));
    // A second response with the same id is dropped.
    assert_eq!(tracker.resolve(&id), None);
    // A non-canonical spelling of the same number does not match either.
    let mut tracker2: OutgoingRequests<&str> = OutgoingRequests::new();
    let id0 = tracker2.register("zero");
    assert_eq!(id0, "0");
    assert_eq!(tracker2.resolve("00"), None);
    assert_eq!(tracker2.resolve("0"), Some("zero"));
}

#[test]
fn disconnect_drains_every_pending_slot() {
    let mut tracker: OutgoingRequests<u32> = OutgoingRequests::new();
    for k in 0..5u32 {
        tracker.register(k);
    }
    let drained = tracker.disconnect();
    assert_eq!(drained.len(), 5);
    let as_set: HashSet<u32> = drained.into_iter().collect();
    assert_eq!(as_set, (0..5u32).collect::<HashSet<u32>>());
    // Nothing stays pending afterwards.
    assert_eq!(tracker.resolve("0"), None);
}

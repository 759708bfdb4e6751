//! The shared stores and the stop signal.
use brainstorm::tables::TranspositionTable;
use brainstorm::tables::KillerTable;
use brainstorm::tables::RepetitionLedger;
use brainstorm::tables::StopFlag;
use brainstorm::tables::NodeCounter;

#[test]
fn transposition_roundtrip_and_clear() {
    let tt = TranspositionTable::new();
    let key = String::from("some position key");
    assert_eq!(tt.probe(&key), None);
    tt.store(key.clone(), -77, 3);
    assert_eq!(tt.probe(&key), Some((-77, 3)));
    tt.store(key.clone(), 55, 5);
    assert_eq!(tt.probe(&key), Some((55, 5)), "last write wins");
    tt.clear();
    assert_eq!(tt.probe(&key), None);
}

#[test]
fn killer_slots_are_per_depth_and_overwritten() {
    let killers = KillerTable::new();
    assert_eq!(killers.hint(2), None);
    killers.record(2, 777);
    killers.record(3, 888);
    assert_eq!(killers.hint(2), Some(777));
    assert_eq!(killers.hint(3), Some(888));
    killers.record(2, 999);
    assert_eq!(killers.hint(2), Some(999));
}

#[test]
fn ledger_counts_each_noted_occurrence() {
    let ledger = RepetitionLedger::new();
    let key = String::from("k");
    assert_eq!(ledger.count(&key), 0);
    ledger.note(&key);
    assert_eq!(ledger.count(&key), 1);
    ledger.note(&key);
    ledger.note(&key);
    assert_eq!(ledger.count(&key), 3);
    assert_eq!(ledger.count(&String::from("other")), 0);
}

#[test]
fn stop_flag_is_shared_between_clones() {
    let stop = StopFlag::new();
    assert!(!stop.is_set());
    let other = stop.clone();
    other.request_stop();
    assert!(stop.is_set());
    stop.reset();
    assert!(!other.is_set());
}

#[test]
fn node_counter_adds_and_resets() {
    let nodes = NodeCounter::new();
    assert_eq!(nodes.read(), 0);
    nodes.add_one();
    nodes.add_one();
    assert_eq!(nodes.read(), 2);
    nodes.reset();
    assert_eq!(nodes.read(), 0);
}

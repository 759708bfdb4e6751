//! The three shared concurrent stores of a game session, plus the stop
//! flag and node counter.  All are safe for simultaneous use by many
//! search workers without outside locking; reads and writes race freely
//! (last write wins), which only ever costs search quality, never
//! legality.  Because other workers may write between any two calls, no
//! wrapper below can promise anything about the values it returns; the
//! search is verified to behave sensibly whatever comes back.
use vstd::prelude::*;
use std::sync::Arc;
use std::sync::atomic::AtomicBool;
use std::sync::atomic::AtomicUsize;
use std::sync::atomic::Ordering;

verus! {

#[verifier::external_type_specification]
#[verifier::external_body]
#[verifier::reject_recursive_types(K)]
#[verifier::reject_recursive_types(V)]
#[verifier::reject_recursive_types(S)]
pub struct ExDashMap<K, V, S>(dashmap::DashMap<K, V, S>);

/// Concurrent memo of `(score, searched depth)` per position key.
/// Entries persist for the whole session unless explicitly cleared; a
/// stale (shallower) entry is ignored by readers, not deleted.
#[derive(Clone)]
pub struct TranspositionTable {
    map: Arc<dashmap::DashMap<String, (i64, u32)>>,
}

impl TranspositionTable {
    /// Relies on `dashmap::DashMap::new` for an empty concurrent map.
    #[verifier::external_body]
    pub fn new() -> Self {
        TranspositionTable { map: Arc::new(dashmap::DashMap::new()) }
    }

    /// Relies on `dashmap::DashMap::get`; the entry last written for
    /// the key, if any.  Concurrent writers race, so nothing more can
    /// be promised of the value.
    #[verifier::external_body]
    pub fn probe(&self, key: &String) -> Option<(i64, u32)> {
        self.map.get(key).map(|e| *e)
    }

    /// Relies on `dashmap::DashMap::insert`: overwrites the key's
    /// entry; concurrent writers race, last write wins.
    #[verifier::external_body]
    pub fn store(&self, key: String, score: i64, depth: u32) {
        self.map.insert(key, (score, depth));
    }

    /// Relies on `dashmap::DashMap::clear`: empties the memo, for the
    /// start of a new game.
    #[verifier::external_body]
    pub fn clear(&self) {
        self.map.clear();
    }
}

/// Concurrent single-slot memory of the move that last caused a cutoff
/// at each depth; a best-effort ordering hint, overwritten freely.
#[derive(Clone)]
pub struct KillerTable {
    map: Arc<dashmap::DashMap<u32, u16>>,
}

impl KillerTable {
    /// Relies on `dashmap::DashMap::new` for an empty concurrent map.
    #[verifier::external_body]
    pub fn new() -> Self {
        KillerTable { map: Arc::new(dashmap::DashMap::new()) }
    }

    /// Relies on `dashmap::DashMap::get`; the cutoff move last recorded
    /// at this depth, if any.
    #[verifier::external_body]
    pub fn hint(&self, depth: u32) -> Option<u16> {
        self.map.get(&depth).map(|e| *e)
    }

    /// Relies on `dashmap::DashMap::insert`: records the cutoff move
    /// for this depth, overwriting the previous one.
    #[verifier::external_body]
    pub fn record(&self, depth: u32, mv: u16) {
        self.map.insert(depth, mv);
    }
}

/// Concurrent count of how often each position key has occurred in real
/// play.  The search only reads it; the driving component notes each
/// position actually reached.
#[derive(Clone)]
pub struct RepetitionLedger {
    map: Arc<dashmap::DashMap<String, u32>>,
}

impl RepetitionLedger {
    /// Relies on `dashmap::DashMap::new` for an empty concurrent map.
    #[verifier::external_body]
    pub fn new() -> Self {
        RepetitionLedger { map: Arc::new(dashmap::DashMap::new()) }
    }

    /// Relies on `dashmap::DashMap::get`; the count last written for
    /// the key, if any.
    #[verifier::external_body]
    fn probe(&self, key: &String) -> Option<u32> {
        self.map.get(key).map(|e| *e)
    }

    /// Relies on `dashmap::DashMap::insert`: overwrites the key's
    /// count.
    #[verifier::external_body]
    fn set(&self, key: String, count: u32) {
        self.map.insert(key, count);
    }

    /// How often the position has occurred; zero when never noted.
    pub fn count(&self, key: &String) -> u32 {
        match self.probe(key) {
            Some(c) => c,
            Option::None => 0,
        }
    }

    /// Notes one more real occurrence of the position.  Get-then-set,
    /// not atomic: concurrent noters may lose an increment, which the
    /// shared-store policy tolerates.  The count saturates rather than
    /// overflowing.
    pub fn note(&self, key: &String) {
        let c = self.count(key);
        let next: u32 = if c == u32::MAX {
            c
        } else {
            c + 1
        };
        self.set(key.clone(), next);
    }
}

/// The shared stop signal: one boolean readable and writable from any
/// thread.  Readers poll it; a set value is seen promptly but no other
/// ordering is promised, so nothing is claimed about what a read
/// returns.
#[derive(Clone)]
pub struct StopFlag {
    flag: Arc<AtomicBool>,
}

impl StopFlag {
    /// A fresh, unset signal.
    pub fn new() -> Self {
        StopFlag { flag: Arc::new(AtomicBool::new(false)) }
    }

    /// Requests that every in-flight search return its best-so-far
    /// result promptly.
    pub fn request_stop(&self) {
        self.flag.store(true, Ordering::Relaxed);
    }

    /// Re-arms the signal before a new search.
    pub fn reset(&self) {
        self.flag.store(false, Ordering::Relaxed);
    }

    /// Polls the signal.  Another thread may set it at any moment, so
    /// two reads may disagree.
    pub fn is_set(&self) -> bool {
        self.flag.load(Ordering::Relaxed)
    }
}

/// Shared counter of search nodes visited, for progress reporting only.
#[derive(Clone)]
pub struct NodeCounter {
    count: Arc<AtomicUsize>,
}

impl NodeCounter {
    /// A fresh counter at zero.
    pub fn new() -> Self {
        NodeCounter { count: Arc::new(AtomicUsize::new(0)) }
    }

    /// Notes one more visited node; wraps on overflow, which only
    /// affects the reported number.
    pub fn add_one(&self) {
        self.count.fetch_add(1, Ordering::Relaxed);
    }

    /// The nodes counted so far, as last observed.
    pub fn read(&self) -> usize {
        self.count.load(Ordering::Relaxed)
    }

    /// Resets the counter between searches.
    pub fn reset(&self) {
        self.count.store(0, Ordering::Relaxed);
    }
}

} // verus!

//! The telemetry relay: the one object shared between the telemetry
//! producer and the control loop.
//!
//! A reader-writer lock guards a single [`TelemetrySnapshot`] value.
//! `publish` replaces it wholesale under the exclusive write side;
//! `read` copies it out whole under the shared read side. A reader
//! therefore always obtains the fields of one published message —
//! there is no field-by-field update that could expose a torn mix of
//! two messages — and every value that can ever be stored or read
//! satisfies the snapshot's well-formedness, which the lock's
//! invariant carries.
//!
//! The producer may stall; reads then keep returning the last
//! published snapshot, deliberately without a staleness signal.

use vstd::prelude::*;
use vstd::rwlock::{RwLock, RwLockPredicate};

use crate::telemetry::TelemetrySnapshot;

verus! {

/// The lock invariant: only well-formed snapshots are ever stored.
pub struct SnapshotWf;

impl RwLockPredicate<TelemetrySnapshot> for SnapshotWf {
    open spec fn inv(self, v: TelemetrySnapshot) -> bool {
        v.wf()
    }
}

/// Owns the shared snapshot and mediates every access to it: the
/// producer thread only ever publishes, the control loop only ever
/// reads, once per frame.
pub struct TelemetryRelay {
    slot: RwLock<TelemetrySnapshot, SnapshotWf>,
}

impl TelemetryRelay {
    /// A relay holding the nothing-received-yet snapshot.
    pub fn new() -> (r: TelemetryRelay) {
        TelemetryRelay { slot: RwLock::new(TelemetrySnapshot::default(), Ghost(SnapshotWf)) }
    }

    /// Replaces the stored snapshot wholesale with `m`. Blocks only
    /// for the duration of concurrent reads' copy-out.
    pub fn publish(&self, m: TelemetrySnapshot)
        requires
            m.wf(),
    {
        let (_stale, handle) = self.slot.acquire_write();
        handle.release_write(m);
    }

    /// Copies out the most recently published snapshot, whole. Never
    /// blocks the producer beyond this copy, and never observes a
    /// partially replaced value.
    pub fn read(&self) -> (s: TelemetrySnapshot)
        ensures
            s.wf(),
    {
        let handle = self.slot.acquire_read();
        let s = *handle.borrow();
        handle.release_read();
        s
    }
}

} // verus!

//! The one shared live state, guarded by a reader–writer lock.
//!
//! The device listener is the sole writer and the snapshot server the sole
//! reader; a snapshot is serialized entirely under the read lock, so the
//! bytes it hands out are always the wire form of one single state — never
//! a mix of two updates.

use vstd::prelude::*;
use vstd::rwlock::{RwLock, RwLockPredicate};
use crate::state::{Status, STATE_SIZE};

verus! {

/// The lock predicate: any state value may be stored.
pub struct AnyStatus {}

impl RwLockPredicate<Status> for AnyStatus {
    open spec fn inv(self, v: Status) -> bool {
        true
    }
}

/// The live surface state behind a reader–writer lock: many concurrent
/// readers or one exclusive writer, never both.
pub struct SharedStatus {
    lock: RwLock<Status, AnyStatus>,
}

impl SharedStatus {
    /// A fresh shared state, holding the all-zero startup value.
    pub fn new() -> (s: SharedStatus) {
        SharedStatus { lock: RwLock::new(Status::new(), Ghost(AnyStatus {  })) }
    }

    /// Fold one raw device message into the state under the write lock.
    /// The result says whether the message was recognized.
    pub fn apply_event(&self, message: &[u8]) -> (recognized: bool)
        ensures
            recognized == Status::spec_recognized(message@),
    {
        let (mut s, handle) = self.lock.acquire_write();
        let recognized = s.apply_event(message);
        handle.release_write(s);
        recognized
    }

    /// Serialize the current state under the read lock.  The bytes are the
    /// wire form of one single state value, observed whole: no torn
    /// snapshot is possible.
    pub fn snapshot(&self) -> (r: Vec<u8>)
        ensures
            exists|s: Status| r@ == s.spec_serialized(),
            r@.len() == STATE_SIZE,
    {
        let handle = self.lock.acquire_read();
        let val = handle.borrow();
        let r = val.serialize();
        proof {
            assert(r@ == val.spec_serialized());
            assert(exists|s: Status| r@ == s.spec_serialized());
        }
        handle.release_read();
        r
    }
}

} // verus!

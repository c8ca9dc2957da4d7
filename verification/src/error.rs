//! Reasons for which a request is rejected.

use vstd::prelude::*;

verus! {

/// Why a create or release request was rejected. Every rejection is final for
/// that call and leaves all state as it was.
#[derive(Clone, Copy, Debug, PartialEq, Eq, Structural)]
pub enum TimeLockError {
    /// A lock was requested whose unlock time is not strictly in the future.
    UnlockTimeInPast,
    /// A release was requested before the unlock time.
    StillLocked,
    /// A release was requested on a record that is already released, or on a
    /// slot that holds no record.
    AlreadyWithdrawn,
    /// A release was requested by an identity other than the stored owner.
    Unauthorized,
    /// A lock was requested at an address that already holds a live lock.
    DuplicateLock,
}

} // verus!

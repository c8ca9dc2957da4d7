//! The lock record and the two transitions of its life: create and release.
//!
//! A slot is the storage that one address names. It is empty until a lock is
//! created in it, then holds a live record, and after the one release that a
//! lock is granted it holds the same record marked as released. The functions
//! here decide on one slot at a time; moving the value and reading the clock
//! are left to the caller, who is handed the amount to move and passes the
//! clock reading in.

use crate::error::TimeLockError;
use crate::identity::Identity;
use vstd::prelude::*;

verus! {

/// The persisted record of one lock.
#[derive(Clone, Copy, Debug, PartialEq, Eq)]
pub struct TimeLock {
    /// The depositor, and the only identity that may release the lock.
    pub user: Identity,
    /// The value held: what was deposited while the lock is live, zero once
    /// it has been released.
    pub amount: u64,
    /// Seconds since the epoch from which on a release is permitted.
    pub unlock_timestamp: i64,
    /// Whether the lock has been released.
    pub released: bool,
}

/// Where a slot stands in the life of a lock.
#[derive(Clone, Copy, Debug, PartialEq, Eq, Structural)]
pub enum LockState {
    /// No record has been written to the slot.
    Uninitialized,
    /// The slot holds a record whose value is still in escrow.
    Locked,
    /// The slot holds a record whose value has been paid back.
    Released,
}

/// The accounts that a create request names: the authenticated depositor and
/// the slot at the lock's address.
#[derive(Clone, Copy, Debug, PartialEq, Eq)]
pub struct InitializeLock {
    pub user: Identity,
    pub time_lock: Option<TimeLock>,
}

/// The accounts that a release request names: the authenticated caller and
/// the slot at the lock's address.
#[derive(Clone, Copy, Debug, PartialEq, Eq)]
pub struct Withdraw {
    pub user: Identity,
    pub time_lock: Option<TimeLock>,
}

/// The state of a slot.
pub open spec fn state_of(slot: Option<TimeLock>) -> LockState {
    match slot {
        None => LockState::Uninitialized,
        Some(record) => if record.released {
            LockState::Released
        } else {
            LockState::Locked
        },
    }
}

/// The value that a slot keeps in escrow: the amount of a live record, and
/// nothing otherwise.
pub open spec fn escrowed(slot: Option<TimeLock>) -> nat {
    match slot {
        Some(record) => if record.released {
            0
        } else {
            record.amount as nat
        },
        None => 0,
    }
}

/// The record that a successful create writes.
pub open spec fn locked_record(owner: Identity, amount: u64, unlock_timestamp: i64) -> TimeLock {
    TimeLock { user: owner, amount, unlock_timestamp, released: false }
}

/// The record that a successful release leaves: owner and unlock time as they
/// were, nothing held any more, marked as released.
pub open spec fn released_record(record: TimeLock) -> TimeLock {
    TimeLock {
        user: record.user,
        amount: 0,
        unlock_timestamp: record.unlock_timestamp,
        released: true,
    }
}

/// How a create request on a slot ends. The unlock time is judged first, so
/// that a request that is bound to fail on it is never reported otherwise.
pub open spec fn create_outcome(
    slot: Option<TimeLock>,
    unlock_timestamp: i64,
    current_timestamp: i64,
) -> Result<(), TimeLockError> {
    if unlock_timestamp <= current_timestamp {
        Err(TimeLockError::UnlockTimeInPast)
    } else if state_of(slot) == LockState::Locked {
        Err(TimeLockError::DuplicateLock)
    } else {
        Ok(())
    }
}

/// How a release request on a slot ends: the amount paid to the owner, or the
/// first of the three checks that fails. They are made in this order: the
/// record must be live, the unlock time must have come, and the caller must
/// be the recorded owner.
pub open spec fn release_outcome(
    slot: Option<TimeLock>,
    caller: Identity,
    current_timestamp: i64,
) -> Result<u64, TimeLockError> {
    match slot {
        None => Err(TimeLockError::AlreadyWithdrawn),
        Some(record) => if record.released {
            Err(TimeLockError::AlreadyWithdrawn)
        } else if current_timestamp < record.unlock_timestamp {
            Err(TimeLockError::StillLocked)
        } else if caller != record.user {
            Err(TimeLockError::Unauthorized)
        } else {
            Ok(record.amount)
        },
    }
}

/// The slot after a create request.
pub open spec fn slot_after_create(
    slot: Option<TimeLock>,
    owner: Identity,
    amount: u64,
    unlock_timestamp: i64,
    current_timestamp: i64,
) -> Option<TimeLock> {
    if create_outcome(slot, unlock_timestamp, current_timestamp) is Ok {
        Some(locked_record(owner, amount, unlock_timestamp))
    } else {
        slot
    }
}

/// The slot after a release request.
pub open spec fn slot_after_release(
    slot: Option<TimeLock>,
    caller: Identity,
    current_timestamp: i64,
) -> Option<TimeLock> {
    match slot {
        Some(record) => if release_outcome(slot, caller, current_timestamp) is Ok {
            Some(released_record(record))
        } else {
            slot
        },
        None => None,
    }
}

/// Reports the state of a slot.
pub fn slot_state(slot: &Option<TimeLock>) -> (state: LockState)
    ensures
        state == state_of(*slot),
{
    match slot {
        None => LockState::Uninitialized,
        Some(record) => {
            if record.released {
                LockState::Released
            } else {
                LockState::Locked
            }
        },
    }
}

/// Creates a lock of `amount` for `ctx.user` in the slot `ctx.time_lock`,
/// releasable from `unlock_timestamp` on, at the clock reading
/// `current_timestamp`.
///
/// The request is rejected with `UnlockTimeInPast` unless the unlock time is
/// strictly later than the clock reading, and otherwise with `DuplicateLock`
/// if the slot holds a live lock. A rejected request leaves the slot as it
/// was. On success the slot holds the new record, and the caller owes the
/// escrow a transfer of `amount` from the owner. A slot whose lock has been
/// released may be used again: the new record replaces the old one and is
/// live. A zero amount is accepted and locks nothing.
pub fn initialize_lock(
    ctx: &mut InitializeLock,
    amount: u64,
    unlock_timestamp: i64,
    current_timestamp: i64,
) -> (result: Result<(), TimeLockError>)
    ensures
        result == create_outcome(old(ctx).time_lock, unlock_timestamp, current_timestamp),
        final(ctx).user == old(ctx).user,
        final(ctx).time_lock == slot_after_create(
            old(ctx).time_lock,
            old(ctx).user,
            amount,
            unlock_timestamp,
            current_timestamp,
        ),
{
    if unlock_timestamp <= current_timestamp {
        return Err(TimeLockError::UnlockTimeInPast);
    }
    match slot_state(&ctx.time_lock) {
        LockState::Locked => {
            return Err(TimeLockError::DuplicateLock);
        },
        _ => {},
    }
    ctx.time_lock = Some(
        TimeLock { user: ctx.user, amount, unlock_timestamp, released: false },
    );
    Ok(())
}

/// Releases the lock in the slot `ctx.time_lock` to the caller `ctx.user` at
/// the clock reading `current_timestamp`.
///
/// The request is rejected with `AlreadyWithdrawn` if the slot holds no live
/// record, else with `StillLocked` if the unlock time has not come, else with
/// `Unauthorized` if the caller is not the recorded owner. A rejected request
/// leaves the slot as it was. On success the result is the whole recorded
/// amount, which the caller owes the owner as a transfer out of the escrow,
/// and the record is left released with nothing held.
pub fn withdraw(ctx: &mut Withdraw, current_timestamp: i64) -> (result: Result<u64, TimeLockError>)
    ensures
        result == release_outcome(old(ctx).time_lock, old(ctx).user, current_timestamp),
        final(ctx).user == old(ctx).user,
        final(ctx).time_lock == slot_after_release(
            old(ctx).time_lock,
            old(ctx).user,
            current_timestamp,
        ),
{
    let record = match ctx.time_lock {
        None => {
            return Err(TimeLockError::AlreadyWithdrawn);
        },
        Some(record) => record,
    };
    if record.released {
        return Err(TimeLockError::AlreadyWithdrawn);
    }
    if current_timestamp < record.unlock_timestamp {
        return Err(TimeLockError::StillLocked);
    }
    if !ctx.user.same_as(&record.user) {
        return Err(TimeLockError::Unauthorized);
    }
    let amount = record.amount;
    ctx.time_lock = Some(
        TimeLock {
            user: record.user,
            amount: 0,
            unlock_timestamp: record.unlock_timestamp,
            released: true,
        },
    );
    Ok(amount)
}

} // verus!

//! What holds of every slot, whatever requests reach it.

use crate::error::TimeLockError;
use crate::identity::Identity;
use crate::lock::create_outcome;
use crate::lock::escrowed;
use crate::lock::release_outcome;
use crate::lock::released_record;
use crate::lock::slot_after_create;
use crate::lock::slot_after_release;
use crate::lock::state_of;
use crate::lock::LockState;
use crate::lock::TimeLock;
use vstd::prelude::*;

verus! {

/// One release request: who asks, and when.
pub struct Attempt {
    pub caller: Identity,
    pub at: i64,
}

/// The value that the owner receives from a run of release requests on a
/// slot, each made on the slot as the one before left it.
pub open spec fn total_paid(slot: Option<TimeLock>, attempts: Seq<Attempt>) -> nat
    decreases attempts.len(),
{
    if attempts.len() == 0 {
        0
    } else {
        let first = attempts.first();
        let paid: nat = match release_outcome(slot, first.caller, first.at) {
            Ok(amount) => amount as nat,
            Err(_) => 0,
        };
        paid + total_paid(slot_after_release(slot, first.caller, first.at), attempts.drop_first())
    }
}

/// The slot after a run of release requests.
pub open spec fn slot_after_attempts(slot: Option<TimeLock>, attempts: Seq<Attempt>) -> Option<
    TimeLock,
>
    decreases attempts.len(),
{
    if attempts.len() == 0 {
        slot
    } else {
        let first = attempts.first();
        slot_after_attempts(
            slot_after_release(slot, first.caller, first.at),
            attempts.drop_first(),
        )
    }
}

/// Before the unlock time a live lock answers every release
/// request, whoever makes it, with `StillLocked`, and the slot and the value
/// it keeps stay as they were.
pub proof fn lemma_no_early_release(record: TimeLock, caller: Identity, current_timestamp: i64)
    requires
        !record.released,
        current_timestamp < record.unlock_timestamp,
    ensures
        release_outcome(Some(record), caller, current_timestamp) == Err::<u64, TimeLockError>(
            TimeLockError::StillLocked,
        ),
        slot_after_release(Some(record), caller, current_timestamp) == Some(record),
        escrowed(slot_after_release(Some(record), caller, current_timestamp)) == escrowed(
            Some(record),
        ),
{
}

/// A release request on a live lock by anyone but the recorded
/// owner fails at every time and leaves the slot and the value it keeps as
/// they were. Once the unlock time has come the failure is `Unauthorized`.
pub proof fn lemma_only_owner_releases(record: TimeLock, caller: Identity, current_timestamp: i64)
    requires
        !record.released,
        caller != record.user,
    ensures
        release_outcome(Some(record), caller, current_timestamp) is Err,
        current_timestamp >= record.unlock_timestamp ==> release_outcome(
            Some(record),
            caller,
            current_timestamp,
        ) == Err::<u64, TimeLockError>(TimeLockError::Unauthorized),
        slot_after_release(Some(record), caller, current_timestamp) == Some(record),
        escrowed(slot_after_release(Some(record), caller, current_timestamp)) == escrowed(
            Some(record),
        ),
{
}

/// A release succeeds exactly when the lock is live, its time has come and
/// the owner asks; it then pays the whole recorded amount and leaves nothing
/// in escrow.
pub proof fn lemma_release_succeeds_iff(
    slot: Option<TimeLock>,
    caller: Identity,
    current_timestamp: i64,
)
    ensures
        release_outcome(slot, caller, current_timestamp) is Ok <==> (state_of(slot)
            == LockState::Locked && current_timestamp >= slot->0.unlock_timestamp && caller
            == slot->0.user),
        release_outcome(slot, caller, current_timestamp) is Ok ==> {
            &&& release_outcome(slot, caller, current_timestamp) == Ok::<u64, TimeLockError>(
                slot->0.amount,
            )
            &&& state_of(slot_after_release(slot, caller, current_timestamp))
                == LockState::Released
            &&& escrowed(slot_after_release(slot, caller, current_timestamp)) == 0
        },
        release_outcome(slot, caller, current_timestamp) is Err ==> slot_after_release(
            slot,
            caller,
            current_timestamp,
        ) == slot,
{
}

/// Once a slot no longer holds a live lock, every run of release requests on
/// it pays nothing, leaves it as it is, and each request in it is answered
/// with `AlreadyWithdrawn`.
pub proof fn lemma_released_stays_released(slot: Option<TimeLock>, attempts: Seq<Attempt>)
    requires
        state_of(slot) != LockState::Locked,
    ensures
        total_paid(slot, attempts) == 0,
        slot_after_attempts(slot, attempts) == slot,
        forall|caller: Identity, at: i64| #[trigger]
            release_outcome(slot, caller, at) == Err::<u64, TimeLockError>(
                TimeLockError::AlreadyWithdrawn,
            ),
    decreases attempts.len(),
{
    if attempts.len() > 0 {
        let first = attempts.first();
        assert(slot_after_release(slot, first.caller, first.at) == slot);
        lemma_released_stays_released(slot, attempts.drop_first());
    }
}

/// After one successful release of a lock, every later
/// release request fails with `AlreadyWithdrawn`, and over the successful
/// request and any run of later ones the owner receives exactly the amount
/// that was deposited.
pub proof fn lemma_single_release(
    record: TimeLock,
    caller: Identity,
    current_timestamp: i64,
    later: Seq<Attempt>,
)
    requires
        release_outcome(Some(record), caller, current_timestamp) is Ok,
    ensures
        release_outcome(Some(record), caller, current_timestamp) == Ok::<u64, TimeLockError>(
            record.amount,
        ),
        forall|who: Identity, at: i64| #[trigger]
            release_outcome(slot_after_release(Some(record), caller, current_timestamp), who, at)
                == Err::<u64, TimeLockError>(TimeLockError::AlreadyWithdrawn),
        total_paid(
            Some(record),
            seq![Attempt { caller, at: current_timestamp }] + later,
        ) == record.amount,
        slot_after_attempts(
            Some(record),
            seq![Attempt { caller, at: current_timestamp }] + later,
        ) == Some(released_record(record)),
{
    let first = Attempt { caller, at: current_timestamp };
    let all = seq![first] + later;
    let after = slot_after_release(Some(record), caller, current_timestamp);
    assert(all.first() == first);
    assert(all.drop_first() =~= later);
    lemma_released_stays_released(after, later);
}

/// No run of release requests on a slot ever pays more than the slot keeps.
pub proof fn lemma_never_overpaid(slot: Option<TimeLock>, attempts: Seq<Attempt>)
    ensures
        total_paid(slot, attempts) + escrowed(slot_after_attempts(slot, attempts)) == escrowed(
            slot,
        ),
    decreases attempts.len(),
{
    if attempts.len() > 0 {
        let first = attempts.first();
        lemma_never_overpaid(
            slot_after_release(slot, first.caller, first.at),
            attempts.drop_first(),
        );
    }
}

/// A create request whose unlock time is not strictly after
/// the clock reading fails with `UnlockTimeInPast`, whatever the slot holds,
/// and the slot and the value it keeps stay as they were.
pub proof fn lemma_future_time_gate(
    slot: Option<TimeLock>,
    owner: Identity,
    amount: u64,
    unlock_timestamp: i64,
    current_timestamp: i64,
)
    requires
        unlock_timestamp <= current_timestamp,
    ensures
        create_outcome(slot, unlock_timestamp, current_timestamp) == Err::<(), TimeLockError>(
            TimeLockError::UnlockTimeInPast,
        ),
        slot_after_create(slot, owner, amount, unlock_timestamp, current_timestamp) == slot,
{
}

/// A create request succeeds exactly when the unlock time is in the future
/// and the slot holds no live lock; the slot then keeps exactly `amount`.
pub proof fn lemma_create_succeeds_iff(
    slot: Option<TimeLock>,
    owner: Identity,
    amount: u64,
    unlock_timestamp: i64,
    current_timestamp: i64,
)
    ensures
        create_outcome(slot, unlock_timestamp, current_timestamp) is Ok <==> (unlock_timestamp
            > current_timestamp && state_of(slot) != LockState::Locked),
        create_outcome(slot, unlock_timestamp, current_timestamp) is Ok ==> {
            &&& state_of(
                slot_after_create(slot, owner, amount, unlock_timestamp, current_timestamp),
            ) == LockState::Locked
            &&& escrowed(
                slot_after_create(slot, owner, amount, unlock_timestamp, current_timestamp),
            ) == amount
        },
        create_outcome(slot, unlock_timestamp, current_timestamp) is Err ==> slot_after_create(
            slot,
            owner,
            amount,
            unlock_timestamp,
            current_timestamp,
        ) == slot,
{
}

} // verus!

//! The escrow: every lock of one program, kept by address, with the value
//! held for them.
//!
//! Locks are keyed by owner and amount. An owner may hold several locks at
//! once as long as their amounts differ; a second lock of the same owner over
//! the same amount is refused while the first is live.

use crate::address::derivation_seeds;
use crate::address::lock_address;
use crate::address::lock_tag;
use crate::address::program_address;
use crate::error::TimeLockError;
use crate::identity::Identity;
use crate::ledger::distinct_addresses;
use crate::ledger::lemma_locked_sum_bound;
use crate::ledger::lemma_push_slot;
use crate::ledger::lemma_slot_at_absent;
use crate::ledger::lemma_slot_at_index;
use crate::ledger::lemma_update_slot;
use crate::ledger::locked_sum;
use crate::ledger::slot_at;
use crate::ledger::Slot;
use crate::lock::create_outcome;
use crate::lock::initialize_lock;
use crate::lock::release_outcome;
use crate::lock::slot_after_create;
use crate::lock::slot_after_release;
use crate::lock::slot_state;
use crate::lock::state_of;
use crate::lock::withdraw;
use crate::lock::InitializeLock;
use crate::lock::LockState;
use crate::lock::TimeLock;
use crate::lock::Withdraw;
use vstd::prelude::*;

verus! {

/// All locks of one program and the value held for them.
pub struct Escrow {
    program_id: Identity,
    slots: Vec<Slot>,
    held: u128,
}

impl View for Escrow {
    type V = Seq<Slot>;

    closed spec fn view(&self) -> Seq<Slot> {
        self.slots@
    }
}

/// The address of the lock that `owner` holds over `amount` under `program`,
/// if the derivation finds one.
pub open spec fn lock_key(program: Identity, owner: Identity, amount: u64) -> Option<Seq<u8>> {
    match program_address(derivation_seeds(lock_tag(), owner, Some(amount)), program@) {
        Some((key, _)) => Some(key),
        None => None,
    }
}

/// What a successful request moves: the amount for `Ok`, nothing for `Err`.
pub open spec fn moved<T>(result: Result<T, TimeLockError>, amount: u64) -> nat {
    if result is Ok {
        amount as nat
    } else {
        0
    }
}

impl Escrow {
    /// The program under which the addresses are derived.
    pub closed spec fn program(&self) -> Identity {
        self.program_id
    }

    /// The value that the escrow holds.
    pub closed spec fn held(&self) -> nat {
        self.held as nat
    }

    /// The record kept at an address, if there is one.
    pub open spec fn record_at(&self, address: Seq<u8>) -> Option<TimeLock> {
        slot_at(self@, address)
    }

    /// The sum of the amounts of all live locks.
    pub open spec fn locked_total(&self) -> nat {
        locked_sum(self@)
    }

    /// The escrow is consistent: no address names two slots, and the value
    /// held is the sum of the amounts of the live locks.
    pub closed spec fn wf(&self) -> bool {
        &&& distinct_addresses(self.slots@)
        &&& self.held as nat == locked_sum(self.slots@)
    }

    /// A consistent escrow holds exactly the sum of the amounts
    /// of its live locks, and keeps at most one record per address. Every
    /// operation below starts from a consistent escrow and leaves one.
    pub proof fn lemma_conservation(&self)
        requires
            self.wf(),
        ensures
            self.held() == self.locked_total(),
            distinct_addresses(self@),
    {
    }

    /// An escrow with no locks, for the program `program_id`.
    pub fn new(program_id: Identity) -> (escrow: Escrow)
        ensures
            escrow.wf(),
            escrow.program() == program_id,
            escrow@ == Seq::<Slot>::empty(),
            escrow.held() == 0,
    {
        Escrow { program_id, slots: Vec::new(), held: 0 }
    }

    /// The program under which the addresses are derived.
    pub fn program_id(&self) -> (id: Identity)
        ensures
            id == self.program(),
    {
        self.program_id
    }

    /// The value that the escrow holds.
    pub fn held_value(&self) -> (value: u128)
        ensures
            value == self.held(),
    {
        self.held
    }

    /// The number of slots that hold a record, live or released.
    pub fn len(&self) -> (n: usize)
        ensures
            n == self@.len(),
    {
        self.slots.len()
    }

    /// The sum of the amounts of all live locks, counted record by record.
    pub fn locked_value(&self) -> (value: u128)
        ensures
            value == self.locked_total(),
    {
        let mut value: u128 = 0;
        let mut i: usize = 0;
        while i < self.slots.len()
            invariant
                i <= self.slots.len(),
                value == locked_sum(self.slots@.take(i as int)),
            decreases self.slots.len() - i,
        {
            let record = self.slots[i].record;
            proof {
                let next = self.slots@.take(i + 1);
                assert(next.drop_last() =~= self.slots@.take(i as int));
                assert(next.last() == self.slots@[i as int]);
                lemma_locked_sum_bound(next);
            }
            if !record.released {
                value = value + record.amount as u128;
            }
            i += 1;
        }
        assert(self.slots@.take(i as int) =~= self.slots@);
        value
    }

    /// Where the slot of an address stands, if it is occupied.
    fn find(&self, address: &Identity) -> (found: Option<usize>)
        ensures
            match found {
                Some(i) => i < self.slots@.len() && self.slots@[i as int].address@ == address@,
                None => forall|j: int|
                    0 <= j < self.slots@.len() ==> (#[trigger] self.slots@[j]).address@
                        != address@,
            },
    {
        let mut i: usize = 0;
        while i < self.slots.len()
            invariant
                i <= self.slots.len(),
                forall|j: int| 0 <= j < i ==> (#[trigger] self.slots@[j]).address@ != address@,
            decreases self.slots.len() - i,
        {
            if self.slots[i].address.same_as(address) {
                return Some(i);
            }
            i += 1;
        }
        None
    }

    /// The record kept at an address, if there is one.
    pub fn record(&self, address: &Identity) -> (record: Option<TimeLock>)
        requires
            self.wf(),
        ensures
            record == self.record_at(address@),
    {
        match self.find(address) {
            Some(i) => {
                proof {
                    lemma_slot_at_index(self.slots@, i as int);
                }
                Some(self.slots[i].record)
            },
            None => {
                proof {
                    lemma_slot_at_absent(self.slots@, address@);
                }
                None
            },
        }
    }

    /// The state of the slot at an address.
    pub fn state(&self, address: &Identity) -> (state: LockState)
        requires
            self.wf(),
        ensures
            state == state_of(self.record_at(address@)),
    {
        let record = self.record(address);
        slot_state(&record)
    }

    /// Creates a lock of `amount` for `owner` in the slot at `address`.
    ///
    /// The request ends as [`initialize_lock`] decides on that slot. On
    /// success the slot holds the new live record and the escrow holds
    /// `amount` more; every other slot is as before. A rejected request
    /// changes nothing.
    pub fn create_at(
        &mut self,
        address: &Identity,
        owner: &Identity,
        amount: u64,
        unlock_timestamp: i64,
        current_timestamp: i64,
    ) -> (result: Result<(), TimeLockError>)
        requires
            old(self).wf(),
        ensures
            final(self).wf(),
            final(self).program() == old(self).program(),
            result == create_outcome(
                old(self).record_at(address@),
                unlock_timestamp,
                current_timestamp,
            ),
            forall|a: Seq<u8>| #[trigger]
                final(self).record_at(a) == if a == address@ {
                    slot_after_create(
                        old(self).record_at(a),
                        *owner,
                        amount,
                        unlock_timestamp,
                        current_timestamp,
                    )
                } else {
                    old(self).record_at(a)
                },
            final(self).held() == old(self).held() + moved(result, amount),
            result is Err ==> final(self)@ == old(self)@,
    {
        let found = self.find(address);
        let count = self.slots.len();
        let slot = match found {
            Some(i) => Some(self.slots[i].record),
            None => None,
        };
        proof {
            match found {
                Some(i) => lemma_slot_at_index(self.slots@, i as int),
                None => lemma_slot_at_absent(self.slots@, address@),
            }
        }
        let mut ctx = InitializeLock { user: *owner, time_lock: slot };
        match initialize_lock(&mut ctx, amount, unlock_timestamp, current_timestamp) {
            Err(e) => Err(e),
            Ok(()) => {
                let record = ctx.time_lock.unwrap();
                match found {
                    Some(i) => {
                        proof {
                            lemma_update_slot(self.slots@, i as int, record);
                        }
                        let updated = Slot { address: self.slots[i].address, record };
                        self.slots.set(i, updated);
                    },
                    None => {
                        proof {
                            lemma_push_slot(self.slots@, Slot { address: *address, record });
                        }
                        self.slots.push(Slot { address: *address, record });
                    },
                }
                proof {
                    lemma_locked_sum_bound(self.slots@);
                    assert(self.slots@.len() <= count + 1);
                }
                self.held = self.held + amount as u128;
                Ok(())
            },
        }
    }

    /// Releases the lock in the slot at `address` to `caller`.
    ///
    /// The request ends as [`withdraw`] decides on that slot. On success the
    /// result is the recorded amount, the record is left released, and the
    /// escrow holds that much less; every other slot is as before. A rejected
    /// request changes nothing.
    pub fn release_at(&mut self, address: &Identity, caller: &Identity, current_timestamp: i64) -> (result:
        Result<u64, TimeLockError>)
        requires
            old(self).wf(),
        ensures
            final(self).wf(),
            final(self).program() == old(self).program(),
            result == release_outcome(old(self).record_at(address@), *caller, current_timestamp),
            forall|a: Seq<u8>| #[trigger]
                final(self).record_at(a) == if a == address@ {
                    slot_after_release(old(self).record_at(a), *caller, current_timestamp)
                } else {
                    old(self).record_at(a)
                },
            result matches Ok(paid) ==> final(self).held() + paid == old(self).held(),
            result is Err ==> final(self)@ == old(self)@ && final(self).held() == old(self).held(),
    {
        let found = self.find(address);
        let i = match found {
            Some(i) => i,
            None => {
                proof {
                    lemma_slot_at_absent(self.slots@, address@);
                }
                return Err(TimeLockError::AlreadyWithdrawn);
            },
        };
        proof {
            lemma_slot_at_index(self.slots@, i as int);
        }
        let mut ctx = Withdraw { user: *caller, time_lock: Some(self.slots[i].record) };
        match withdraw(&mut ctx, current_timestamp) {
            Err(e) => Err(e),
            Ok(paid) => {
                let record = ctx.time_lock.unwrap();
                proof {
                    lemma_update_slot(self.slots@, i as int, record);
                }
                let updated = Slot { address: self.slots[i].address, record };
                self.slots.set(i, updated);
                self.held = self.held - paid as u128;
                Ok(paid)
            },
        }
    }

    /// Creates a lock of `amount` for the authenticated depositor `owner`,
    /// releasable from `unlock_timestamp` on, at the clock reading
    /// `current_timestamp`.
    ///
    /// An unlock time that is not strictly in the future is rejected with
    /// `UnlockTimeInPast` before anything else is looked at. Otherwise the
    /// lock's address is derived from owner and amount, and the request ends
    /// as [`Escrow::create_at`] decides at that address. The result is `None`,
    /// and nothing has changed, if the derivation finds no address.
    pub fn create(
        &mut self,
        owner: &Identity,
        amount: u64,
        unlock_timestamp: i64,
        current_timestamp: i64,
    ) -> (result: Option<Result<(), TimeLockError>>)
        requires
            old(self).wf(),
        ensures
            final(self).wf(),
            final(self).program() == old(self).program(),
            unlock_timestamp <= current_timestamp ==> result == Some(
                Err::<(), TimeLockError>(TimeLockError::UnlockTimeInPast),
            ),
            unlock_timestamp > current_timestamp ==> match lock_key(
                old(self).program(),
                *owner,
                amount,
            ) {
                Some(key) => {
                    &&& result == Some(
                        create_outcome(
                            old(self).record_at(key),
                            unlock_timestamp,
                            current_timestamp,
                        ),
                    )
                    &&& forall|a: Seq<u8>| #[trigger]
                        final(self).record_at(a) == if a == key {
                            slot_after_create(
                                old(self).record_at(a),
                                *owner,
                                amount,
                                unlock_timestamp,
                                current_timestamp,
                            )
                        } else {
                            old(self).record_at(a)
                        }
                },
                None => result is None,
            },
            result matches Some(Ok(_)) ==> final(self).held() == old(self).held() + amount,
            !(result matches Some(Ok(_))) ==> final(self)@ == old(self)@ && final(self).held()
                == old(self).held(),
    {
        if unlock_timestamp <= current_timestamp {
            return Some(Err(TimeLockError::UnlockTimeInPast));
        }
        match lock_address(&self.program_id, owner, amount) {
            None => None,
            Some(address) => Some(
                self.create_at(&address.key, owner, amount, unlock_timestamp, current_timestamp),
            ),
        }
    }

    /// Releases the lock that `owner` holds over `amount` to the
    /// authenticated `caller`, at the clock reading `current_timestamp`.
    ///
    /// The lock's address is derived from owner and amount, and the request
    /// ends as [`Escrow::release_at`] decides at that address. The result is
    /// `None`, and nothing has changed, if the derivation finds no address.
    pub fn release(
        &mut self,
        owner: &Identity,
        amount: u64,
        caller: &Identity,
        current_timestamp: i64,
    ) -> (result: Option<Result<u64, TimeLockError>>)
        requires
            old(self).wf(),
        ensures
            final(self).wf(),
            final(self).program() == old(self).program(),
            match lock_key(old(self).program(), *owner, amount) {
                Some(key) => {
                    &&& result == Some(
                        release_outcome(old(self).record_at(key), *caller, current_timestamp),
                    )
                    &&& forall|a: Seq<u8>| #[trigger]
                        final(self).record_at(a) == if a == key {
                            slot_after_release(old(self).record_at(a), *caller, current_timestamp)
                        } else {
                            old(self).record_at(a)
                        }
                },
                None => result is None,
            },
            result matches Some(Ok(paid)) ==> final(self).held() + paid == old(self).held(),
            !(result matches Some(Ok(_))) ==> final(self)@ == old(self)@ && final(self).held()
                == old(self).held(),
    {
        match lock_address(&self.program_id, owner, amount) {
            None => None,
            Some(address) => Some(self.release_at(&address.key, caller, current_timestamp)),
        }
    }
}

} // verus!

//! The mathematical model of an escrow's storage: a sequence of slots, each
//! an address with the record kept there, and what can be said of lookups
//! and sums over it.

use crate::identity::Identity;
use crate::lock::escrowed;
use crate::lock::TimeLock;
use vstd::prelude::*;

verus! {

/// An occupied slot: the address and the record kept there.
#[derive(Clone, Copy, Debug, PartialEq, Eq)]
pub struct Slot {
    pub address: Identity,
    pub record: TimeLock,
}

/// No address names two slots.
pub open spec fn distinct_addresses(slots: Seq<Slot>) -> bool {
    forall|i: int, j: int|
        0 <= i < j < slots.len() ==> (#[trigger] slots[i]).address@ != (#[trigger] slots[j]).address@
}

/// The record kept at an address, if there is one.
pub open spec fn slot_at(slots: Seq<Slot>, address: Seq<u8>) -> Option<TimeLock>
    decreases slots.len(),
{
    if slots.len() == 0 {
        None
    } else if slots.last().address@ == address {
        Some(slots.last().record)
    } else {
        slot_at(slots.drop_last(), address)
    }
}

/// The sum of the amounts of all live locks.
pub open spec fn locked_sum(slots: Seq<Slot>) -> nat
    decreases slots.len(),
{
    if slots.len() == 0 {
        0
    } else {
        locked_sum(slots.drop_last()) + escrowed(Some(slots.last().record))
    }
}

/// An address that names no slot has no record.
pub proof fn lemma_slot_at_absent(slots: Seq<Slot>, address: Seq<u8>)
    requires
        forall|j: int| 0 <= j < slots.len() ==> (#[trigger] slots[j]).address@ != address,
    ensures
        slot_at(slots, address) is None,
    decreases slots.len(),
{
    if slots.len() > 0 {
        lemma_slot_at_absent(slots.drop_last(), address);
    }
}

/// The address of a slot finds that slot's record.
pub proof fn lemma_slot_at_index(slots: Seq<Slot>, i: int)
    requires
        distinct_addresses(slots),
        0 <= i < slots.len(),
    ensures
        slot_at(slots, slots[i].address@) == Some(slots[i].record),
    decreases slots.len(),
{
    if i < slots.len() - 1 {
        assert(slots.last() == slots[slots.len() - 1]);
        assert(slots[i].address@ != slots.last().address@);
        let front = slots.drop_last();
        assert(front[i] == slots[i]);
        lemma_slot_at_index(front, i);
    }
}

/// A slot added at a fresh address is found there, and every other lookup is
/// as before. The sum grows by what the new record keeps.
pub proof fn lemma_push_slot(slots: Seq<Slot>, slot: Slot)
    requires
        distinct_addresses(slots),
        slot_at(slots, slot.address@) is None,
    ensures
        distinct_addresses(slots.push(slot)),
        forall|a: Seq<u8>| #[trigger]
            slot_at(slots.push(slot), a) == if a == slot.address@ {
                Some(slot.record)
            } else {
                slot_at(slots, a)
            },
        locked_sum(slots.push(slot)) == locked_sum(slots) + escrowed(Some(slot.record)),
{
    let after = slots.push(slot);
    assert(after.drop_last() =~= slots);
    assert(after.last() == slot);
    assert forall|i: int, j: int| 0 <= i < j < after.len() implies (#[trigger] after[i]).address@
        != (#[trigger] after[j]).address@ by {
        if j == slots.len() {
            lemma_slot_at_index(slots, i);
        }
    }
}

/// Replacing the record of one slot changes the lookup at its address alone,
/// and the sum by the difference of what the two records keep.
pub proof fn lemma_update_slot(slots: Seq<Slot>, i: int, record: TimeLock)
    requires
        distinct_addresses(slots),
        0 <= i < slots.len(),
    ensures
        distinct_addresses(slots.update(i, Slot { address: slots[i].address, record })),
        forall|a: Seq<u8>| #[trigger]
            slot_at(slots.update(i, Slot { address: slots[i].address, record }), a) == if a
                == slots[i].address@ {
                Some(record)
            } else {
                slot_at(slots, a)
            },
        locked_sum(slots.update(i, Slot { address: slots[i].address, record })) + escrowed(
            Some(slots[i].record),
        ) == locked_sum(slots) + escrowed(Some(record)),
    decreases slots.len(),
{
    let slot = Slot { address: slots[i].address, record };
    let after = slots.update(i, slot);
    let front = slots.drop_last();
    assert forall|p: int, q: int| 0 <= p < q < after.len() implies (#[trigger] after[p]).address@
        != (#[trigger] after[q]).address@ by {
        assert(after[p].address@ == slots[p].address@);
        assert(after[q].address@ == slots[q].address@);
    }
    if i == slots.len() - 1 {
        assert(after.drop_last() =~= front);
        assert(after.last() == slot);
    } else {
        let front_after = front.update(i, Slot { address: front[i].address, record });
        assert(after.drop_last() =~= front_after);
        assert(after.last() == slots.last());
        assert(slots[i].address@ != slots.last().address@);
        lemma_update_slot(front, i, record);
        assert forall|a: Seq<u8>| #[trigger]
            slot_at(after, a) == if a == slots[i].address@ {
                Some(record)
            } else {
                slot_at(slots, a)
            } by {
            if slots.last().address@ != a {
                assert(slot_at(after, a) == slot_at(front_after, a));
            }
        }
    }
}

/// The sum of the live amounts of `n` slots is at most `n` times the largest
/// amount a record can hold.
pub proof fn lemma_locked_sum_bound(slots: Seq<Slot>)
    ensures
        locked_sum(slots) <= slots.len() * 0xffff_ffff_ffff_ffff,
    decreases slots.len(),
{
    if slots.len() > 0 {
        lemma_locked_sum_bound(slots.drop_last());
    }
}

} // verus!

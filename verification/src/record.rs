//! The persisted form of a lock record.
//!
//! A record is stored as 57 bytes: an eight-byte discriminator that tells it
//! from other data in the same address space, the owner's 32 bytes, the
//! amount and the unlock time as eight little-endian bytes each (the unlock
//! time in two's complement), and one byte that is 1 once the lock has been
//! released and 0 before.

use crate::identity::Identity;
use crate::lock::TimeLock;
use vstd::bytes::lemma_auto_spec_u64_to_from_le_bytes;
use vstd::bytes::spec_u64_from_le_bytes;
use vstd::bytes::spec_u64_to_le_bytes;
use vstd::bytes::u64_from_le_bytes;
use vstd::bytes::u64_to_le_bytes;
use vstd::prelude::*;
use vstd::slice::slice_subrange;

verus! {

/// The number of bytes of the discriminator.
pub const DISCRIMINATOR_BYTES: usize = 8;

/// The number of bytes of a record's fields.
pub const INIT_SPACE: usize = 49;

/// The number of bytes of a stored record, discriminator included.
pub const RECORD_BYTES: usize = 57;

/// The prefix of every stored lock record.
pub open spec fn discriminator() -> Seq<u8> {
    seq![254u8, 6u8, 114u8, 1u8, 127u8, 220u8, 253u8, 110u8]
}

/// The byte that stands for the released flag.
pub open spec fn flag_byte(released: bool) -> u8 {
    if released {
        1u8
    } else {
        0u8
    }
}

/// The stored form of a record.
pub open spec fn encoding(record: TimeLock) -> Seq<u8> {
    discriminator() + record.user@ + spec_u64_to_le_bytes(record.amount) + spec_u64_to_le_bytes(
        record.unlock_timestamp as u64,
    ) + seq![flag_byte(record.released)]
}

/// Every stored record has 57 bytes, laid out field by field.
pub proof fn lemma_encoding_layout(record: TimeLock)
    ensures
        encoding(record).len() == 57,
        encoding(record).subrange(0, 8) == discriminator(),
        encoding(record).subrange(8, 40) == record.user@,
        encoding(record).subrange(40, 48) == spec_u64_to_le_bytes(record.amount),
        encoding(record).subrange(48, 56) == spec_u64_to_le_bytes(record.unlock_timestamp as u64),
        encoding(record)[56] == flag_byte(record.released),
{
    lemma_auto_spec_u64_to_from_le_bytes();
    let e = encoding(record);
    assert(e.subrange(0, 8) =~= discriminator());
    assert(e.subrange(8, 40) =~= record.user@);
    assert(e.subrange(40, 48) =~= spec_u64_to_le_bytes(record.amount));
    assert(e.subrange(48, 56) =~= spec_u64_to_le_bytes(record.unlock_timestamp as u64));
}

/// Two records with the same stored form are the same record.
pub proof fn lemma_encoding_injective(a: TimeLock, b: TimeLock)
    requires
        encoding(a) == encoding(b),
    ensures
        a == b,
{
    lemma_encoding_layout(a);
    lemma_encoding_layout(b);
    lemma_auto_spec_u64_to_from_le_bytes();
    assert(a.user.bytes =~= b.user.bytes);
    assert(a.amount == spec_u64_from_le_bytes(spec_u64_to_le_bytes(a.amount)));
    assert(b.amount == spec_u64_from_le_bytes(spec_u64_to_le_bytes(b.amount)));
    let x = a.unlock_timestamp as u64;
    let y = b.unlock_timestamp as u64;
    assert(x == spec_u64_from_le_bytes(spec_u64_to_le_bytes(x)));
    assert(y == spec_u64_from_le_bytes(spec_u64_to_le_bytes(y)));
    let s = a.unlock_timestamp;
    let t = b.unlock_timestamp;
    assert(s as u64 == t as u64 ==> s == t) by (bit_vector);
}

/// Builds the executable discriminator.
pub fn discriminator_bytes() -> (prefix: Vec<u8>)
    ensures
        prefix@ == discriminator(),
{
    let mut prefix: Vec<u8> = Vec::new();
    prefix.push(254u8);
    prefix.push(6u8);
    prefix.push(114u8);
    prefix.push(1u8);
    prefix.push(127u8);
    prefix.push(220u8);
    prefix.push(253u8);
    prefix.push(110u8);
    assert(prefix@ =~= discriminator());
    prefix
}

/// Appends the bytes of `tail` to `bytes`.
fn append(bytes: &mut Vec<u8>, tail: &[u8])
    ensures
        final(bytes)@ == old(bytes)@ + tail@,
{
    let mut i: usize = 0;
    while i < tail.len()
        invariant
            i <= tail@.len(),
            bytes@ == old(bytes)@ + tail@.take(i as int),
        decreases tail@.len() - i,
    {
        bytes.push(tail[i]);
        i += 1;
        assert(old(bytes)@ + tail@.take(i as int) =~= (old(bytes)@ + tail@.take(i - 1)).push(
            tail@[i - 1],
        ));
    }
    assert(tail@.take(i as int) =~= tail@);
}

/// Writes a record in its stored form.
pub fn encode(record: &TimeLock) -> (bytes: Vec<u8>)
    ensures
        bytes@ == encoding(*record),
        bytes@.len() == 57,
{
    let mut bytes = discriminator_bytes();
    append(&mut bytes, record.user.bytes.as_slice());
    let amount = u64_to_le_bytes(record.amount);
    append(&mut bytes, amount.as_slice());
    let unlock = u64_to_le_bytes(record.unlock_timestamp as u64);
    append(&mut bytes, unlock.as_slice());
    bytes.push(if record.released { 1u8 } else { 0u8 });
    proof {
        lemma_encoding_layout(*record);
    }
    bytes
}

/// Whether `data` begins with the bytes of `prefix`.
fn starts_with(data: &[u8], prefix: &Vec<u8>) -> (yes: bool)
    requires
        prefix@.len() <= data@.len(),
    ensures
        yes == (data@.subrange(0, prefix@.len() as int) == prefix@),
{
    let mut i: usize = 0;
    while i < prefix.len()
        invariant
            i <= prefix@.len() <= data@.len(),
            forall|j: int| 0 <= j < i ==> data@[j] == prefix@[j],
        decreases prefix@.len() - i,
    {
        if data[i] != prefix[i] {
            assert(data@.subrange(0, prefix@.len() as int)[i as int] != prefix@[i as int]);
            return false;
        }
        i += 1;
    }
    assert(data@.subrange(0, prefix@.len() as int) =~= prefix@);
    true
}

/// Reads 32 bytes of `data`, from `start` on, as an identity.
fn read_identity(data: &[u8], start: usize) -> (id: Identity)
    requires
        start + 32 <= data@.len(),
    ensures
        id@ == data@.subrange(start as int, start + 32),
{
    let mut bytes = [0u8; 32];
    let length = data.len();
    let mut i: usize = 0;
    while i < 32
        invariant
            i <= 32,
            start + 32 <= length == data@.len(),
            forall|j: int| 0 <= j < i ==> bytes@[j] == data@[start + j],
        decreases 32 - i,
    {
        bytes[i] = data[start + i];
        i += 1;
    }
    assert(bytes@ =~= data@.subrange(start as int, start + 32));
    Identity { bytes }
}

/// Reads a record from its stored form. The result is the record whose
/// stored form `data` is, and `None` if `data` is the stored form of no
/// record: if it has not exactly 57 bytes, does not begin with the
/// discriminator, or ends in a flag byte other than 0 or 1.
pub fn decode(data: &[u8]) -> (decoded: Option<TimeLock>)
    ensures
        match decoded {
            Some(record) => encoding(record) == data@,
            None => forall|record: TimeLock| encoding(record) != data@,
        },
        forall|record: TimeLock| encoding(record) == data@ ==> decoded == Some(record),
{
    if data.len() != 57 {
        proof {
            assert forall|record: TimeLock| encoding(record) != data@ by {
                lemma_encoding_layout(record);
            }
        }
        return None;
    }
    let prefix = discriminator_bytes();
    if !starts_with(data, &prefix) {
        proof {
            assert forall|record: TimeLock| encoding(record) != data@ by {
                lemma_encoding_layout(record);
            }
        }
        return None;
    }
    let flag = data[56];
    if flag > 1 {
        proof {
            assert forall|record: TimeLock| encoding(record) != data@ by {
                lemma_encoding_layout(record);
            }
        }
        return None;
    }
    let user = read_identity(data, 8);
    let amount = u64_from_le_bytes(slice_subrange(data, 40, 48));
    let unlock = u64_from_le_bytes(slice_subrange(data, 48, 56));
    let unlock_timestamp = unlock as i64;
    let record = TimeLock { user, amount, unlock_timestamp, released: flag == 1 };
    proof {
        lemma_auto_spec_u64_to_from_le_bytes();
        assert(unlock as i64 as u64 == unlock) by (bit_vector);
        assert(spec_u64_to_le_bytes(amount) == data@.subrange(40, 48));
        assert(spec_u64_to_le_bytes(unlock_timestamp as u64) == data@.subrange(48, 56));
        assert(encoding(record) =~= data@.subrange(0, 8) + data@.subrange(8, 40) + data@.subrange(
            40,
            48,
        ) + data@.subrange(48, 56) + seq![data@[56]]);
        assert(encoding(record) =~= data@);
        assert forall|other: TimeLock| encoding(other) == data@ implies other == record by {
            lemma_encoding_injective(other, record);
        }
    }
    Some(record)
}

} // verus!

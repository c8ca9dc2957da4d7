use time_locked_wallet::address::lock_address;
use time_locked_wallet::error::TimeLockError;
use time_locked_wallet::escrow::Escrow;
use time_locked_wallet::identity::Identity;
use time_locked_wallet::lock::LockState;
use time_locked_wallet::lock::TimeLock;

const NOW: i64 = 1_700_000_000;

fn program() -> Identity {
    Identity::new([9; 32])
}

fn user(tag: u8) -> Identity {
    Identity::new([tag; 32])
}

fn address_of(owner: &Identity, amount: u64) -> Identity {
    lock_address(&program(), owner, amount).unwrap().key
}

#[test]
fn new_escrow_is_empty() {
    let escrow = Escrow::new(program());
    assert_eq!(escrow.program_id(), program());
    assert_eq!(escrow.len(), 0);
    assert_eq!(escrow.held_value(), 0);
    assert_eq!(escrow.locked_value(), 0);
    assert_eq!(escrow.record(&user(1)), None);
    assert_eq!(escrow.state(&user(1)), LockState::Uninitialized);
}

#[test]
fn scenario_lock_then_release_after_unlock_time() {
    let u = user(1);
    let mut balance: u64 = 5000;
    let mut escrow = Escrow::new(program());
    assert_eq!(escrow.create(&u, 1000, NOW + 3600, NOW), Some(Ok(())));
    balance -= 1000;
    assert_eq!(escrow.held_value(), 1000);
    assert_eq!(escrow.state(&address_of(&u, 1000)), LockState::Locked);

    assert_eq!(escrow.release(&u, 1000, &u, NOW + 1800), Some(Err(TimeLockError::StillLocked)));
    assert_eq!(escrow.held_value(), 1000);
    assert_eq!(escrow.state(&address_of(&u, 1000)), LockState::Locked);

    let paid = escrow.release(&u, 1000, &u, NOW + 3601).unwrap().unwrap();
    assert_eq!(paid, 1000);
    balance += paid;
    assert_eq!(balance, 5000);
    assert_eq!(escrow.held_value(), 0);
    assert_eq!(escrow.state(&address_of(&u, 1000)), LockState::Released);
    let record = escrow.record(&address_of(&u, 1000)).unwrap();
    assert_eq!(
        record,
        TimeLock { user: u, amount: 0, unlock_timestamp: NOW + 3600, released: true }
    );
}

#[test]
fn scenario_unlock_time_in_past_creates_nothing() {
    let u = user(1);
    let mut escrow = Escrow::new(program());
    assert_eq!(escrow.create(&u, 500, NOW - 1, NOW), Some(Err(TimeLockError::UnlockTimeInPast)));
    assert_eq!(escrow.len(), 0);
    assert_eq!(escrow.held_value(), 0);
    assert_eq!(escrow.record(&address_of(&u, 500)), None);
    assert_eq!(escrow.state(&address_of(&u, 500)), LockState::Uninitialized);
}

#[test]
fn scenario_stranger_is_refused_then_owner_succeeds() {
    let u = user(1);
    let v = user(2);
    let mut escrow = Escrow::new(program());
    assert_eq!(escrow.create(&u, 200, NOW + 10, NOW), Some(Ok(())));
    assert_eq!(escrow.release(&u, 200, &v, NOW + 11), Some(Err(TimeLockError::Unauthorized)));
    assert_eq!(escrow.held_value(), 200);
    assert_eq!(escrow.state(&address_of(&u, 200)), LockState::Locked);
    assert_eq!(escrow.release(&u, 200, &u, NOW + 11), Some(Ok(200)));
    assert_eq!(escrow.held_value(), 0);
}

#[test]
fn scenario_second_release_is_already_withdrawn() {
    let u = user(1);
    let mut balance: u64 = 0;
    let mut escrow = Escrow::new(program());
    assert_eq!(escrow.create(&u, 300, NOW + 1, NOW), Some(Ok(())));
    balance += escrow.release(&u, 300, &u, NOW + 1).unwrap().unwrap();
    assert_eq!(balance, 300);
    let second = escrow.release(&u, 300, &u, NOW + 2);
    assert_eq!(second, Some(Err(TimeLockError::AlreadyWithdrawn)));
    assert_eq!(balance, 300);
    assert_eq!(escrow.held_value(), 0);
    assert_eq!(escrow.len(), 1);
}

#[test]
fn release_of_unknown_lock_is_already_withdrawn() {
    let u = user(1);
    let mut escrow = Escrow::new(program());
    assert_eq!(escrow.release(&u, 1, &u, NOW), Some(Err(TimeLockError::AlreadyWithdrawn)));
    assert_eq!(escrow.create(&u, 2, NOW + 1, NOW), Some(Ok(())));
    assert_eq!(escrow.release(&u, 1, &u, NOW + 5), Some(Err(TimeLockError::AlreadyWithdrawn)));
    assert_eq!(escrow.held_value(), 2);
}

#[test]
fn stranger_before_unlock_time_is_told_still_locked() {
    let u = user(1);
    let v = user(2);
    let mut escrow = Escrow::new(program());
    assert_eq!(escrow.create(&u, 200, NOW + 10, NOW), Some(Ok(())));
    assert_eq!(escrow.release(&u, 200, &v, NOW + 9), Some(Err(TimeLockError::StillLocked)));
    assert_eq!(escrow.held_value(), 200);
}

#[test]
fn same_owner_same_amount_collides_while_live() {
    let u = user(1);
    let mut escrow = Escrow::new(program());
    assert_eq!(escrow.create(&u, 50, NOW + 10, NOW), Some(Ok(())));
    assert_eq!(escrow.create(&u, 50, NOW + 20, NOW), Some(Err(TimeLockError::DuplicateLock)));
    assert_eq!(escrow.held_value(), 50);
    assert_eq!(escrow.len(), 1);
    let record = escrow.record(&address_of(&u, 50)).unwrap();
    assert_eq!(record.unlock_timestamp, NOW + 10);
    assert_eq!(escrow.create(&u, 50, NOW, NOW), Some(Err(TimeLockError::UnlockTimeInPast)));
}

#[test]
fn different_amounts_and_owners_hold_separate_locks() {
    let u = user(1);
    let v = user(2);
    let mut escrow = Escrow::new(program());
    assert_eq!(escrow.create(&u, 50, NOW + 10, NOW), Some(Ok(())));
    assert_eq!(escrow.create(&u, 51, NOW + 20, NOW), Some(Ok(())));
    assert_eq!(escrow.create(&v, 50, NOW + 30, NOW), Some(Ok(())));
    assert_eq!(escrow.len(), 3);
    assert_eq!(escrow.held_value(), 151);
    assert_eq!(escrow.locked_value(), 151);
    assert_eq!(escrow.release(&u, 51, &u, NOW + 25), Some(Ok(51)));
    assert_eq!(escrow.held_value(), 100);
    assert_eq!(escrow.locked_value(), 100);
    assert_eq!(escrow.state(&address_of(&u, 50)), LockState::Locked);
    assert_eq!(escrow.state(&address_of(&u, 51)), LockState::Released);
    assert_eq!(escrow.state(&address_of(&v, 50)), LockState::Locked);
    assert_eq!(escrow.release(&v, 50, &v, NOW + 25), Some(Err(TimeLockError::StillLocked)));
    assert_eq!(escrow.release(&v, 50, &v, NOW + 30), Some(Ok(50)));
    assert_eq!(escrow.release(&u, 50, &u, NOW + 30), Some(Ok(50)));
    assert_eq!(escrow.held_value(), 0);
    assert_eq!(escrow.locked_value(), 0);
    assert_eq!(escrow.len(), 3);
}

#[test]
fn released_slot_can_hold_a_new_lock() {
    let u = user(1);
    let mut escrow = Escrow::new(program());
    assert_eq!(escrow.create(&u, 70, NOW + 1, NOW), Some(Ok(())));
    assert_eq!(escrow.release(&u, 70, &u, NOW + 1), Some(Ok(70)));
    assert_eq!(escrow.create(&u, 70, NOW + 9, NOW + 2), Some(Ok(())));
    assert_eq!(escrow.len(), 1);
    assert_eq!(escrow.held_value(), 70);
    assert_eq!(
        escrow.record(&address_of(&u, 70)),
        Some(TimeLock { user: u, amount: 70, unlock_timestamp: NOW + 9, released: false })
    );
    assert_eq!(escrow.release(&u, 70, &u, NOW + 8), Some(Err(TimeLockError::StillLocked)));
    assert_eq!(escrow.release(&u, 70, &u, NOW + 9), Some(Ok(70)));
    assert_eq!(escrow.release(&u, 70, &u, NOW + 9), Some(Err(TimeLockError::AlreadyWithdrawn)));
    assert_eq!(escrow.held_value(), 0);
}

#[test]
fn held_value_equals_locked_value_after_every_step() {
    let mut escrow = Escrow::new(program());
    let mut outside: u128 = 0;
    for step in 0..12u8 {
        let who = user(step % 3);
        let amount = 100 + (step as u64 % 4);
        if let Some(Ok(())) = escrow.create(&who, amount, NOW + step as i64 + 1, NOW) {
            outside += amount as u128;
        }
        assert_eq!(escrow.held_value(), escrow.locked_value());
        assert_eq!(escrow.held_value(), outside);
    }
    for step in 0..12u8 {
        let who = user(step % 3);
        let amount = 100 + (step as u64 % 4);
        if let Some(Ok(paid)) = escrow.release(&who, amount, &who, NOW + 6) {
            outside -= paid as u128;
        }
        assert_eq!(escrow.held_value(), escrow.locked_value());
        assert_eq!(escrow.held_value(), outside);
    }
}

#[test]
fn held_value_exceeds_single_record_range() {
    let mut escrow = Escrow::new(program());
    assert_eq!(escrow.create(&user(1), u64::MAX, NOW + 1, NOW), Some(Ok(())));
    assert_eq!(escrow.create(&user(2), u64::MAX, NOW + 1, NOW), Some(Ok(())));
    assert_eq!(escrow.held_value(), 2 * (u64::MAX as u128));
    assert_eq!(escrow.locked_value(), 2 * (u64::MAX as u128));
}

#[test]
fn create_at_and_release_at_work_on_given_address() {
    let u = user(1);
    let at = user(200);
    let other = user(201);
    let mut escrow = Escrow::new(program());
    assert_eq!(escrow.create_at(&at, &u, 11, NOW + 5, NOW), Ok(()));
    assert_eq!(escrow.create_at(&at, &u, 12, NOW + 5, NOW), Err(TimeLockError::DuplicateLock));
    assert_eq!(escrow.create_at(&other, &u, 12, NOW, NOW), Err(TimeLockError::UnlockTimeInPast));
    assert_eq!(escrow.record(&other), None);
    assert_eq!(escrow.release_at(&other, &u, NOW + 5), Err(TimeLockError::AlreadyWithdrawn));
    assert_eq!(escrow.release_at(&at, &u, NOW + 4), Err(TimeLockError::StillLocked));
    assert_eq!(escrow.release_at(&at, &user(3), NOW + 5), Err(TimeLockError::Unauthorized));
    assert_eq!(escrow.held_value(), 11);
    assert_eq!(escrow.release_at(&at, &u, NOW + 5), Ok(11));
    assert_eq!(escrow.release_at(&at, &u, NOW + 5), Err(TimeLockError::AlreadyWithdrawn));
    assert_eq!(escrow.held_value(), 0);
}

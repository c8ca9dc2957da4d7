use time_locked_wallet::identity::Identity;
use time_locked_wallet::lock::TimeLock;
use time_locked_wallet::record::decode;
use time_locked_wallet::record::discriminator_bytes;
use time_locked_wallet::record::encode;
use time_locked_wallet::record::DISCRIMINATOR_BYTES;
use time_locked_wallet::record::INIT_SPACE;
use time_locked_wallet::record::RECORD_BYTES;

fn sample() -> TimeLock {
    let mut bytes = [0u8; 32];
    for (i, b) in bytes.iter_mut().enumerate() {
        *b = i as u8 + 1;
    }
    TimeLock {
        user: Identity::new(bytes),
        amount: 0x0102_0304_0506_0708,
        unlock_timestamp: 1_700_000_000,
        released: false,
    }
}

#[test]
fn record_sizes_add_up() {
    assert_eq!(DISCRIMINATOR_BYTES, 8);
    assert_eq!(INIT_SPACE, 32 + 8 + 8 + 1);
    assert_eq!(RECORD_BYTES, DISCRIMINATOR_BYTES + INIT_SPACE);
    assert_eq!(discriminator_bytes(), vec![254, 6, 114, 1, 127, 220, 253, 110]);
}

#[test]
fn encode_lays_fields_out_in_order() {
    let bytes = encode(&sample());
    let mut expected: Vec<u8> = vec![254, 6, 114, 1, 127, 220, 253, 110];
    expected.extend(1u8..=32);
    expected.extend([8, 7, 6, 5, 4, 3, 2, 1]);
    expected.extend(1_700_000_000i64.to_le_bytes());
    expected.push(0);
    assert_eq!(bytes.len(), 57);
    assert_eq!(bytes, expected);
}

#[test]
fn encode_writes_negative_time_in_twos_complement() {
    let mut record = sample();
    record.unlock_timestamp = -2;
    record.released = true;
    record.amount = 0;
    let bytes = encode(&record);
    assert_eq!(&bytes[40..48], &[0u8; 8]);
    assert_eq!(&bytes[48..56], &[0xfe, 0xff, 0xff, 0xff, 0xff, 0xff, 0xff, 0xff]);
    assert_eq!(bytes[56], 1);
}

#[test]
fn decode_gives_back_what_encode_took() {
    let mut records = vec![sample()];
    let mut other = sample();
    other.released = true;
    other.amount = 0;
    records.push(other);
    other.unlock_timestamp = i64::MIN;
    other.amount = u64::MAX;
    records.push(other);
    other.unlock_timestamp = i64::MAX;
    other.user = Identity::new([255; 32]);
    records.push(other);
    other.unlock_timestamp = -1;
    records.push(other);
    for record in records {
        assert_eq!(decode(&encode(&record)), Some(record));
    }
}

#[test]
fn decode_refuses_wrong_length() {
    let bytes = encode(&sample());
    assert_eq!(decode(&bytes[..56]), None);
    assert_eq!(decode(&[]), None);
    let mut longer = bytes.clone();
    longer.push(0);
    assert_eq!(decode(&longer), None);
}

#[test]
fn decode_refuses_wrong_discriminator() {
    for i in 0..8 {
        let mut bytes = encode(&sample());
        bytes[i] ^= 1;
        assert_eq!(decode(&bytes), None);
    }
    assert_eq!(decode(&[0u8; 57]), None);
}

#[test]
fn decode_refuses_flag_other_than_zero_or_one() {
    let mut bytes = encode(&sample());
    bytes[56] = 2;
    assert_eq!(decode(&bytes), None);
    bytes[56] = 255;
    assert_eq!(decode(&bytes), None);
    bytes[56] = 1;
    let mut expected = sample();
    expected.released = true;
    assert_eq!(decode(&bytes), Some(expected));
}

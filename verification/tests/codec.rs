use greeting_counter::{ErrorKind, GreetingAccount};

#[test]
fn decodes_little_endian_counter() {
    let r = GreetingAccount::try_from_slice(&[0x78, 0x56, 0x34, 0x12]);
    assert_eq!(r, Ok(GreetingAccount { counter: 0x1234_5678 }));
}

#[test]
fn decodes_zero_and_max() {
    assert_eq!(
        GreetingAccount::try_from_slice(&[0, 0, 0, 0]),
        Ok(GreetingAccount { counter: 0 })
    );
    assert_eq!(
        GreetingAccount::try_from_slice(&[0xff, 0xff, 0xff, 0xff]),
        Ok(GreetingAccount { counter: u32::MAX })
    );
}

#[test]
fn rejects_short_buffers() {
    assert_eq!(
        GreetingAccount::try_from_slice(&[]),
        Err(ErrorKind::InvalidPayload)
    );
    assert_eq!(
        GreetingAccount::try_from_slice(&[1]),
        Err(ErrorKind::InvalidPayload)
    );
    assert_eq!(
        GreetingAccount::try_from_slice(&[1, 2, 3]),
        Err(ErrorKind::InvalidPayload)
    );
}

#[test]
fn rejects_long_buffers() {
    assert_eq!(
        GreetingAccount::try_from_slice(&[1, 2, 3, 4, 5]),
        Err(ErrorKind::InvalidPayload)
    );
}

#[test]
fn serialize_fills_exact_buffer() {
    let record = GreetingAccount { counter: 8 };
    let mut data: Vec<u8> = vec![0xaa, 0xbb, 0xcc, 0xdd];
    assert_eq!(record.serialize(&mut data), Ok(()));
    assert_eq!(data, vec![8, 0, 0, 0]);
}

#[test]
fn serialize_keeps_bytes_past_the_record() {
    let record = GreetingAccount { counter: 0x0102_0304 };
    let mut data: Vec<u8> = vec![0, 0, 0, 0, 0x66, 0x77];
    assert_eq!(record.serialize(&mut data), Ok(()));
    assert_eq!(data, vec![0x04, 0x03, 0x02, 0x01, 0x66, 0x77]);
}

#[test]
fn serialize_rejects_small_buffer_untouched() {
    let record = GreetingAccount { counter: 1 };
    let mut data: Vec<u8> = vec![9, 9, 9];
    assert_eq!(record.serialize(&mut data), Err(ErrorKind::BufferTooSmall));
    assert_eq!(data, vec![9, 9, 9]);
}

#[test]
fn encode_then_decode_returns_the_counter() {
    let record = GreetingAccount { counter: 0xdead_beef };
    let mut data: Vec<u8> = vec![0, 0, 0, 0];
    assert_eq!(record.serialize(&mut data), Ok(()));
    assert_eq!(GreetingAccount::try_from_slice(&data), Ok(record));
}

#[test]
fn encoding_agrees_with_borsh() {
    let record = GreetingAccount { counter: 5 };
    let mut data: Vec<u8> = vec![0, 0, 0, 0];
    assert_eq!(record.serialize(&mut data), Ok(()));
    assert_eq!(data, borsh::to_vec(&5u32).unwrap());

    let decoded = GreetingAccount::try_from_slice(&[0x2a, 0, 0, 1]).unwrap();
    assert_eq!(
        decoded.counter,
        borsh::from_slice::<u32>(&[0x2a, 0, 0, 1]).unwrap()
    );
}

#[test]
fn length_checks_agree_with_borsh() {
    assert!(borsh::from_slice::<u32>(&[1, 2, 3]).is_err());
    assert!(GreetingAccount::try_from_slice(&[1, 2, 3]).is_err());
    assert!(borsh::from_slice::<u32>(&[1, 2, 3, 4, 5]).is_err());
    assert!(GreetingAccount::try_from_slice(&[1, 2, 3, 4, 5]).is_err());
    assert!(borsh::from_slice::<u32>(&[1, 2, 3, 4]).is_ok());
    assert!(GreetingAccount::try_from_slice(&[1, 2, 3, 4]).is_ok());
}

use hdc302x::checksum::checksum;
use hdc302x::transaction::{
    checked_word, decode_response, BusEvent, BusRequest, Phase, Transaction, TxStep,
};
use hdc302x::types::Error;

#[derive(Debug, PartialEq)]
struct BusFault(u8);

fn word_bytes(w: u16) -> [u8; 3] {
    let b = [(w >> 8) as u8, w as u8];
    [b[0], b[1], checksum(b)]
}

fn response(words: &[u16]) -> Vec<u8> {
    let mut v = Vec::new();
    for w in words {
        v.extend_from_slice(&word_bytes(*w));
    }
    v
}

#[test]
fn checksum_known_vectors() {
    assert_eq!(checksum([0xBE, 0xEF]), 0x92);
    assert_eq!(checksum([0x00, 0x00]), 0x81);
}

#[test]
fn checksum_is_reproducible() {
    for p in [[0x61u8, 0xA8], [0x5C, 0x2F], [0xFF, 0xFF], [0x12, 0x34]] {
        assert_eq!(checksum(p), checksum(p));
    }
    assert_ne!(checksum([0xBE, 0xEF]), checksum([0xEF, 0xBE]));
}

#[test]
fn checked_word_assembles_big_endian() {
    assert_eq!(checked_word(0x61, 0xA8, 0x17, 0x17), Some(0x61A8));
    assert_eq!(checked_word(0x00, 0xFF, 0x00, 0x00), Some(0x00FF));
    assert_eq!(checked_word(0x61, 0xA8, 0x17, 0x18), None);
}

#[test]
fn decode_response_two_words() {
    let buf = response(&[0x61A8, 0x5C2F]);
    let r = decode_response::<BusFault>(&buf, 2);
    assert_eq!(r.unwrap(), vec![0x61A8, 0x5C2F]);
}

#[test]
fn decode_response_no_words() {
    let r = decode_response::<BusFault>(&[], 0);
    assert!(r.unwrap().is_empty());
}

#[test]
fn decode_response_corrupt_first_word() {
    let mut buf = response(&[0x61A8, 0x5C2F]);
    buf[2] ^= 0x01;
    assert!(matches!(decode_response::<BusFault>(&buf, 2), Err(Error::CrcMismatch)));
}

#[test]
fn decode_response_corrupt_second_word() {
    let mut buf = response(&[0x61A8, 0x5C2F]);
    buf[5] ^= 0x80;
    assert!(matches!(decode_response::<BusFault>(&buf, 2), Err(Error::CrcMismatch)));
}

#[test]
fn decode_response_wrong_length() {
    let buf = response(&[0x61A8]);
    assert!(matches!(decode_response::<BusFault>(&buf, 2), Err(Error::InvalidInputData)));
}

#[test]
fn write_only_transaction_succeeds() {
    let t = Transaction::start([0x30, 0xA2], 0);
    assert_eq!(t.phase, Phase::Write);
    assert!(matches!(t.request(), BusRequest::Write { bytes: [0x30, 0xA2] }));
    match t.handle::<BusFault>(BusEvent::Written) {
        TxStep::Done(Ok(words)) => assert!(words.is_empty()),
        other => panic!("unexpected {:?}", other),
    }
}

#[test]
fn write_only_transaction_failure_is_not_retried() {
    let t = Transaction::start([0x30, 0xA2], 0);
    match t.handle(BusEvent::Failed(BusFault(7))) {
        TxStep::Done(Err(Error::I2c(BusFault(7)))) => {},
        other => panic!("unexpected {:?}", other),
    }
}

#[test]
fn read_transaction_asks_for_three_bytes_per_word() {
    let t = Transaction::start([0xF3, 0x2D], 1);
    assert!(matches!(t.request(), BusRequest::WriteRead { bytes: [0xF3, 0x2D], read_len: 3 }));
    let t = Transaction::start([0xE0, 0x00], 2);
    assert!(matches!(t.request(), BusRequest::WriteRead { bytes: [0xE0, 0x00], read_len: 6 }));
}

#[test]
fn failed_exchange_falls_back_to_reads_with_pause() {
    let t = Transaction::start([0xE0, 0x00], 2);
    let t = match t.handle(BusEvent::Failed(BusFault(1))) {
        TxStep::Continue(t) => t,
        other => panic!("unexpected {:?}", other),
    };
    assert!(matches!(t.request(), BusRequest::Read { read_len: 6 }));
    let t = match t.handle(BusEvent::Failed(BusFault(2))) {
        TxStep::Continue(t) => t,
        other => panic!("unexpected {:?}", other),
    };
    assert!(matches!(t.request(), BusRequest::DelayMs { ms: 1 }));
    let t = match t.handle::<BusFault>(BusEvent::Waited) {
        TxStep::Continue(t) => t,
        other => panic!("unexpected {:?}", other),
    };
    assert!(matches!(t.request(), BusRequest::Read { read_len: 6 }));
    match t.handle::<BusFault>(BusEvent::Received(response(&[0x1234, 0xABCD]))) {
        TxStep::Done(Ok(words)) => assert_eq!(words, vec![0x1234, 0xABCD]),
        other => panic!("unexpected {:?}", other),
    }
}

#[test]
fn corrupt_response_gives_checksum_mismatch() {
    let t = Transaction::start([0xE0, 0x00], 2);
    let mut buf = response(&[0x61A8, 0x5C2F]);
    buf[5] = buf[5].wrapping_add(1);
    match t.handle::<BusFault>(BusEvent::Received(buf)) {
        TxStep::Done(Err(Error::CrcMismatch)) => {},
        other => panic!("unexpected {:?}", other),
    }
}

#[test]
fn unexpected_event_is_invalid_input() {
    let t = Transaction::start([0x30, 0xA2], 0);
    assert!(matches!(t.handle::<BusFault>(BusEvent::Waited), TxStep::Done(Err(Error::InvalidInputData))));
    let t = Transaction::start([0xE0, 0x02], 1);
    assert!(matches!(t.handle::<BusFault>(BusEvent::Written), TxStep::Done(Err(Error::InvalidInputData))));
}

use ever_send::address::Address;
use ever_send::error::Error;
use ever_send::payload::Gift;
use ever_send::SendPayload;

const DESTINATION: &str = "0:00112233445566778899aabbccddeeff00112233445566778899aabbccddeeff";

/// One cell without data or references, serialised.
const EMPTY_CELL: [u8; 13] = [0xb5, 0xee, 0x9c, 0x72, 1, 1, 1, 1, 0, 2, 0, 0, 0];
const EMPTY_CELL_TEXT: &str = "te6ccgEBAQEAAgAAAA==";

/// One cell that holds the byte `ab`, serialised.
const BYTE_CELL: [u8; 14] = [0xb5, 0xee, 0x9c, 0x72, 1, 1, 1, 1, 0, 3, 0, 0, 2, 0xab];
const BYTE_CELL_TEXT: &str = "te6ccgEBAQEAAwAAAqs=";

fn destination() -> Address {
    Address::from_str(DESTINATION).unwrap()
}

fn record(body: Option<&str>) -> SendPayload {
    SendPayload {
        flags: 3,
        bounce: true,
        destination: DESTINATION.to_string(),
        amount: 1_000_000_000,
        body: body.map(|b| b.to_string()),
    }
}

#[test]
fn record_of_a_gift_without_body() {
    let gift = Gift { flags: 1, bounce: false, destination: destination(), amount: 7, body: None };
    let record = SendPayload::try_from(gift).unwrap();
    assert_eq!(
        record,
        SendPayload { flags: 1, bounce: false, destination: DESTINATION.to_string(), amount: 7, body: None }
    );
}

#[test]
fn record_of_a_gift_with_body_is_base64() {
    let gift = Gift {
        flags: 3,
        bounce: true,
        destination: destination(),
        amount: u64::MAX,
        body: Some(EMPTY_CELL.to_vec()),
    };
    let record = SendPayload::try_from(gift).unwrap();
    assert_eq!(record.body.as_deref(), Some(EMPTY_CELL_TEXT));
    assert_eq!(record.amount, u64::MAX);
    assert_eq!(record.destination, DESTINATION);
    let other = Gift { flags: 3, bounce: true, destination: destination(), amount: 0, body: Some(BYTE_CELL.to_vec()) };
    assert_eq!(SendPayload::try_from(other).unwrap().body.as_deref(), Some(BYTE_CELL_TEXT));
}

#[test]
fn body_bytes_are_the_decoded_text() {
    assert_eq!(record(None).body_bytes(), None);
    assert_eq!(record(Some(EMPTY_CELL_TEXT)).body_bytes(), Some(Some(EMPTY_CELL.to_vec())));
    assert_eq!(record(Some("AQID")).body_bytes(), Some(Some(vec![1, 2, 3])));
    assert_eq!(record(Some("aGVsbG8gd29ybGQ=")).body_bytes(), Some(Some(b"hello world".to_vec())));
    assert_eq!(record(Some("")).body_bytes(), Some(Some(vec![])));
    assert_eq!(record(Some("!")).body_bytes(), Some(None));
}

#[test]
fn gift_of_a_record_decodes_the_body() {
    let gift = Gift::try_from(record(Some(BYTE_CELL_TEXT)), true).unwrap();
    assert_eq!(
        gift,
        Gift {
            flags: 3,
            bounce: true,
            destination: destination(),
            amount: 1_000_000_000,
            body: Some(BYTE_CELL.to_vec()),
        }
    );
    assert_eq!(Gift::try_from(record(None), true).unwrap().body, None);
    assert_eq!(Gift::try_from(record(None), false).unwrap().body, None);
}

#[test]
fn gift_of_a_record_whose_body_is_no_tree_of_cells_fails() {
    for body in ["AQID", "", "aGVsbG8gd29ybGQ="] {
        assert_eq!(Gift::try_from(record(Some(body)), false), Err(Error::DecodeFailure), "{body:?}");
        assert_eq!(Gift::from_record(&record(Some(body)), false), Err(Error::DecodeFailure), "{body:?}");
    }
}

#[test]
fn gifts_round_trip_through_records() {
    let bodies: [Option<Vec<u8>>; 3] = [None, Some(EMPTY_CELL.to_vec()), Some(BYTE_CELL.to_vec())];
    for body in bodies {
        for flags in [0u8, 3, 128, 255] {
            for bounce in [false, true] {
                for amount in [0u64, 1, u64::MAX] {
                    for workchain in [-1, 0, i32::MAX, i32::MIN] {
                        let gift = Gift {
                            flags,
                            bounce,
                            destination: Address { workchain, hash: [flags; 32] },
                            amount,
                            body: body.clone(),
                        };
                        let record = SendPayload::try_from(gift.clone()).unwrap();
                        assert_eq!(Gift::from_record(&record, true), Ok(gift.clone()));
                        assert_eq!(Gift::try_from(record, true), Ok(gift));
                    }
                }
            }
        }
    }
}

#[test]
fn gift_of_a_record_with_a_bad_body_fails() {
    for body in ["!", "A", "****", "AQID AQID", "AQ=D", "AQID\n"] {
        for said in [false, true] {
            assert_eq!(Gift::try_from(record(Some(body)), said), Err(Error::DecodeFailure), "{body:?}");
        }
    }
}

#[test]
fn gift_of_a_record_with_a_bad_destination_fails() {
    let mut bad = record(None);
    bad.destination = "nowhere".to_string();
    assert_eq!(Gift::try_from(bad, true), Err(Error::BadAddress));
}

#[test]
fn a_bad_body_is_reported_before_a_bad_destination() {
    let mut bad = record(Some("!"));
    bad.destination = "nowhere".to_string();
    assert_eq!(Gift::try_from(bad, true), Err(Error::DecodeFailure));
    let mut no_tree = record(Some("AQID"));
    no_tree.destination = "nowhere".to_string();
    assert_eq!(Gift::try_from(no_tree.clone(), false), Err(Error::DecodeFailure));
    assert_eq!(Gift::try_from(no_tree, true), Err(Error::BadAddress));
}

#[test]
fn assemble_takes_the_decoded_body_and_the_word_on_it() {
    let cell = BYTE_CELL.to_vec();
    assert_eq!(Gift::assemble(3, false, DESTINATION, 5, Some(None), true), Err(Error::DecodeFailure));
    assert_eq!(Gift::assemble(3, false, DESTINATION, 5, Some(None), false), Err(Error::DecodeFailure));
    assert_eq!(
        Gift::assemble(3, false, DESTINATION, 5, Some(Some(vec![1, 2, 3])), false),
        Err(Error::DecodeFailure)
    );
    assert_eq!(Gift::assemble(3, false, "x", 5, None, true), Err(Error::BadAddress));
    assert_eq!(
        Gift::assemble(3, false, DESTINATION, 5, None, false),
        Ok(Gift { flags: 3, bounce: false, destination: destination(), amount: 5, body: None })
    );
    assert_eq!(
        Gift::assemble(9, true, DESTINATION, 5, Some(Some(cell.clone())), true),
        Ok(Gift { flags: 9, bounce: true, destination: destination(), amount: 5, body: Some(cell) })
    );
}

#[test]
fn a_plain_transfer_has_no_body() {
    assert_eq!(
        Gift::transfer(destination(), 42),
        Gift { flags: 3, bounce: false, destination: destination(), amount: 42, body: None }
    );
}

use ever_send::account::{AccountState, AccountStatus, CodeIdentity};
use ever_send::address::Address;
use ever_send::error::Error;
use ever_send::keys::Keypair;
use ever_send::payload::Gift;
use ever_send::pipeline::{
    outcome_result, tx_status, ErrorAction, SendEvent, SendOptions, SendOutcome, SendStage,
    SendStep, TransferAction, MAX_BATCH, MESSAGE_TIMEOUT, MIN_BATCH, POLL_INTERVAL,
};
use ever_send::{SendPayload, TonSigner};

const WALLET: &str = "0:1111111111111111111111111111111111111111111111111111111111111111";
const TARGET: &str = "0:00112233445566778899aabbccddeeff00112233445566778899aabbccddeeff";

/// One cell without data or references, serialised.
const EMPTY_CELL: [u8; 13] = [0xb5, 0xee, 0x9c, 0x72, 1, 1, 1, 1, 0, 2, 0, 0, 0];
const EMPTY_CELL_TEXT: &str = "te6ccgEBAQEAAgAAAA==";

fn wallet() -> Address {
    Address::from_str(WALLET).unwrap()
}

fn signer() -> TonSigner {
    TonSigner::new([9; 32], wallet())
}

fn gift(amount: u64) -> Gift {
    Gift::transfer(Address::from_str(TARGET).unwrap(), amount)
}

fn record(amount: u64) -> SendPayload {
    SendPayload { flags: 3, bounce: false, destination: TARGET.to_string(), amount, body: None }
}

fn to_outcome(s: &TonSigner, gifts: Vec<Gift>) -> SendStage {
    let (stage, _) = s.send(gifts);
    let (stage, _) = s.advance(stage, SendEvent::Account(None));
    let (stage, _) = s.advance(stage, SendEvent::Prepared(TransferAction::Sign { hash: [1; 32] }));
    let (stage, _) = s.advance(stage, SendEvent::SectionEntered);
    assert_eq!(stage, SendStage::AwaitingOutcome);
    stage
}

#[test]
fn limits_are_one_to_three_and_a_minute() {
    assert_eq!(MIN_BATCH, 1);
    assert_eq!(MAX_BATCH, 3);
    assert_eq!(MESSAGE_TIMEOUT, 60);
    assert_eq!(POLL_INTERVAL, 1);
}

#[test]
fn send_runs_through_its_stages() {
    let s = signer();
    let hash = [0x42; 32];
    let (stage, step) = s.send(vec![gift(5)]);
    assert_eq!(stage, SendStage::AwaitingAccount { gifts: vec![gift(5)] });
    assert_eq!(step, SendStep::FetchAccount { address: wallet() });

    let account = AccountState {
        balance: 10,
        status: AccountStatus::Active { code: Some(CodeIdentity::Other), data: Some(vec![1]) },
    };
    let (stage, step) = s.advance(stage, SendEvent::Account(Some(account.clone())));
    assert_eq!(stage, SendStage::AwaitingMessage);
    assert_eq!(step, SendStep::Prepare { account, gifts: vec![gift(5)], timeout: 60 });

    let (stage, step) = s.advance(stage, SendEvent::Prepared(TransferAction::Sign { hash }));
    assert_eq!(stage, SendStage::AwaitingSection { hash });
    assert_eq!(step, SendStep::EnterSection);

    let (stage, step) = s.advance(stage, SendEvent::SectionEntered);
    assert_eq!(stage, SendStage::AwaitingOutcome);
    let signature = Keypair::from_secret([9; 32]).sign(&hash);
    assert!(s.public_key().verify(&hash, &signature));
    assert_eq!(
        step,
        SendStep::Broadcast {
            signature,
            options: SendOptions { error_action: ErrorAction::Return, ttl: 60, poll_interval: 1 },
        }
    );

    let confirmed = SendOutcome::Confirmed { hash: [0xab; 32], aborted: false };
    let (stage, step) = s.advance(stage, SendEvent::Outcome(confirmed));
    assert_eq!(stage, SendStage::Finished);
    assert_eq!(step, SendStep::Leave { result: Ok("ab".repeat(32)) });
}

#[test]
fn a_missing_sender_account_is_the_empty_state() {
    let s = signer();
    let (stage, _) = s.send(vec![gift(1), gift(2)]);
    let (stage, step) = s.advance(stage, SendEvent::Account(None));
    assert_eq!(stage, SendStage::AwaitingMessage);
    assert_eq!(
        step,
        SendStep::Prepare {
            account: AccountState { balance: 0, status: AccountStatus::Uninit },
            gifts: vec![gift(1), gift(2)],
            timeout: 60,
        }
    );
    assert_eq!(AccountState::default(), AccountState { balance: 0, status: AccountStatus::Uninit });
}

#[test]
fn a_failed_fetch_ends_the_send() {
    let s = signer();
    let (stage, _) = s.send(vec![gift(1)]);
    assert_eq!(
        s.advance(stage, SendEvent::AccountFailed),
        (SendStage::Finished, SendStep::Return { error: Error::RpcError })
    );
}

#[test]
fn a_wallet_that_needs_deployment_is_a_failure() {
    let s = signer();
    let (stage, _) = s.send(vec![gift(1)]);
    let (stage, _) = s.advance(stage, SendEvent::Account(None));
    assert_eq!(
        s.advance(stage, SendEvent::Prepared(TransferAction::DeployFirst)),
        (SendStage::Finished, SendStep::Return { error: Error::DeploymentRequired })
    );
}

#[test]
fn a_message_that_cannot_be_built_is_a_failure() {
    let s = signer();
    let (stage, _) = s.send(vec![gift(1)]);
    let (stage, _) = s.advance(stage, SendEvent::Account(None));
    assert_eq!(
        s.advance(stage, SendEvent::PrepareFailed),
        (SendStage::Finished, SendStep::Return { error: Error::EncodingFailure })
    );
}

#[test]
fn outcomes_map_to_results() {
    let s = signer();
    let hash = [0x0f; 32];
    let cases = [
        (SendOutcome::Confirmed { hash, aborted: false }, Ok("0f".repeat(32))),
        (SendOutcome::Confirmed { hash, aborted: true }, Err(Error::TransactionAborted { hash })),
        (SendOutcome::Expired, Err(Error::MessageExpired)),
        (SendOutcome::TransportError, Err(Error::TransportFailure)),
    ];
    for (outcome, result) in cases {
        assert_eq!(outcome_result(outcome), result);
        let stage = to_outcome(&s, vec![gift(1)]);
        assert_eq!(
            s.advance(stage, SendEvent::Outcome(outcome)),
            (SendStage::Finished, SendStep::Leave { result })
        );
    }
}

#[test]
fn tx_status_prints_the_hash_or_reports_the_abort() {
    let mut hash = [0u8; 32];
    for (i, b) in hash.iter_mut().enumerate() {
        *b = (i as u8) * 8 + 1;
    }
    assert_eq!(tx_status(&hash, false), Ok(hex::encode(hash)));
    assert_eq!(tx_status(&hash, true), Err(Error::TransactionAborted { hash }));
}

#[test]
fn an_event_out_of_turn_ends_the_send() {
    let s = signer();
    let (stage, _) = s.send(vec![gift(1)]);
    assert_eq!(
        s.advance(stage, SendEvent::SectionEntered),
        (SendStage::Finished, SendStep::Return { error: Error::UnexpectedEvent })
    );
    let (stage, _) = s.send(vec![gift(1)]);
    let (stage, _) = s.advance(stage, SendEvent::Account(None));
    assert_eq!(
        s.advance(stage, SendEvent::Outcome(SendOutcome::Expired)),
        (SendStage::Finished, SendStep::Return { error: Error::UnexpectedEvent })
    );
    let (stage, _) = s.send(vec![gift(1)]);
    let (stage, _) = s.advance(stage, SendEvent::Account(None));
    let (stage, _) = s.advance(stage, SendEvent::Prepared(TransferAction::Sign { hash: [1; 32] }));
    assert_eq!(
        s.advance(stage, SendEvent::Account(None)),
        (SendStage::Finished, SendStep::Return { error: Error::UnexpectedEvent })
    );
    assert_eq!(
        s.advance(SendStage::Finished, SendEvent::SectionEntered),
        (SendStage::Finished, SendStep::Return { error: Error::UnexpectedEvent })
    );
}

#[test]
fn an_event_out_of_turn_inside_the_section_leaves_it() {
    let s = signer();
    let stage = to_outcome(&s, vec![gift(1)]);
    assert_eq!(
        s.advance(stage, SendEvent::SectionEntered),
        (SendStage::Finished, SendStep::Leave { result: Err(Error::UnexpectedEvent) })
    );
}

#[test]
fn send_refuses_batches_of_the_wrong_size() {
    let s = signer();
    for count in [0usize, 4, 5, 10] {
        let gifts: Vec<Gift> = (0..count).map(|i| gift(i as u64)).collect();
        assert_eq!(
            s.send(gifts),
            (SendStage::Finished, SendStep::Return { error: Error::InvalidBatchSize { count } })
        );
    }
    for count in [1usize, 2, 3] {
        let gifts: Vec<Gift> = (0..count).map(|i| gift(i as u64)).collect();
        assert_eq!(
            s.send(gifts.clone()),
            (SendStage::AwaitingAccount { gifts }, SendStep::FetchAccount { address: wallet() })
        );
    }
}

#[test]
fn send_evers_begins_a_plain_transfer() {
    let s = signer();
    assert_eq!(
        s.send_evers(TARGET, 1_000),
        Ok((
            SendStage::AwaitingAccount { gifts: vec![gift(1_000)] },
            SendStep::FetchAccount { address: wallet() },
        ))
    );
    assert_eq!(s.send_evers("0:zz", 1_000), Err(Error::BadAddress));
}

#[test]
fn call_multi_takes_one_to_three_records() {
    let s = signer();
    for count in [0usize, 4, 5] {
        let records: Vec<SendPayload> = (0..count).map(|i| record(i as u64)).collect();
        assert_eq!(s.call_multi(records, vec![true; count]), Err(Error::InvalidBatchSize { count }));
    }
    for count in [1usize, 2, 3] {
        let records: Vec<SendPayload> = (0..count).map(|i| record(i as u64)).collect();
        let gifts: Vec<Gift> = (0..count).map(|i| gift(i as u64)).collect();
        assert_eq!(
            s.call_multi(records, vec![true; count]),
            Ok((SendStage::AwaitingAccount { gifts }, SendStep::FetchAccount { address: wallet() }))
        );
    }
}

#[test]
fn call_multi_asks_nothing_of_records_without_body() {
    let s = signer();
    let gifts = vec![gift(0), gift(1)];
    for trees in [vec![], vec![false], vec![false, false], vec![true, true, true]] {
        assert_eq!(
            s.call_multi(vec![record(0), record(1)], trees),
            Ok((
                SendStage::AwaitingAccount { gifts: gifts.clone() },
                SendStep::FetchAccount { address: wallet() },
            ))
        );
    }
}

#[test]
fn call_multi_reports_the_first_record_that_is_no_transfer() {
    let s = signer();
    let mut bad_body = record(1);
    bad_body.body = Some("!".to_string());
    let mut bad_destination = record(2);
    bad_destination.destination = "nowhere".to_string();
    assert_eq!(
        s.call_multi(vec![record(0), bad_body.clone(), bad_destination.clone()], vec![true; 3]),
        Err(Error::DecodeFailure)
    );
    assert_eq!(
        s.call_multi(vec![bad_destination.clone(), bad_body.clone()], vec![true; 2]),
        Err(Error::BadAddress)
    );
    assert_eq!(
        s.call_multi(vec![record(0), record(1), record(2), bad_body], vec![true; 4]),
        Err(Error::DecodeFailure)
    );
    assert_eq!(
        s.call_multi(vec![record(0), record(1), record(2), record(3)], vec![true; 4]),
        Err(Error::InvalidBatchSize { count: 4 })
    );
}

#[test]
fn call_multi_carries_bodies() {
    let s = signer();
    let mut with_body = record(9);
    with_body.body = Some(EMPTY_CELL_TEXT.to_string());
    let (stage, step) = s.call_multi(vec![with_body], vec![true]).unwrap();
    let mut expected = gift(9);
    expected.body = Some(EMPTY_CELL.to_vec());
    assert_eq!(stage, SendStage::AwaitingAccount { gifts: vec![expected] });
    assert_eq!(step, SendStep::FetchAccount { address: wallet() });
}

#[test]
fn call_multi_refuses_a_body_that_is_no_tree_of_cells_before_any_step() {
    let s = signer();
    let mut hello = record(9);
    hello.body = Some("aGVsbG8gd29ybGQ=".to_string());
    let mut cell = record(8);
    cell.body = Some(EMPTY_CELL_TEXT.to_string());
    assert_eq!(s.call_multi(vec![hello.clone()], vec![false]), Err(Error::DecodeFailure));
    assert_eq!(s.call_multi(vec![hello.clone()], vec![]), Err(Error::DecodeFailure));
    assert_eq!(
        s.call_multi(vec![cell.clone(), record(1), hello.clone()], vec![true, true, false]),
        Err(Error::DecodeFailure)
    );
    assert_eq!(
        s.call_multi(vec![cell.clone(), hello.clone()], vec![true]),
        Err(Error::DecodeFailure)
    );
    let mut nowhere = record(7);
    nowhere.destination = "nowhere".to_string();
    assert_eq!(
        s.call_multi(vec![nowhere, hello.clone()], vec![true, false]),
        Err(Error::BadAddress)
    );
    assert_eq!(
        s.call_multi(vec![hello, cell.clone(), cell.clone(), cell], vec![false, true, true, true]),
        Err(Error::DecodeFailure)
    );
}

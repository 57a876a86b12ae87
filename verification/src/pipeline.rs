//! The life of one send, as a sequence of stages. The caller does the waiting: it
//! performs each step it is handed and reports what came of it as an event. The order of
//! the steps, what is signed and when, and what each outcome means are decided here.

use vstd::prelude::*;
use crate::account::{AccountState, AccountStatus};
use crate::address::Address;
use crate::error::Error;
use crate::hexcodec::{hex_encoded, lemma_encoded_is_lower_case};
use crate::keys::{ed25519_signature, Signature};
use crate::payload::Gift;
use crate::text::{ascii_string, ascii_text};

verus! {

/// The fewest transfers that one message carries.
pub const MIN_BATCH: usize = 1;

/// The most transfers that one message carries.
pub const MAX_BATCH: usize = 3;

/// For how many seconds a prepared message stays valid, and for how long its inclusion
/// is awaited.
pub const MESSAGE_TIMEOUT: u32 = 60;

/// How many seconds pass between two looks for the message.
pub const POLL_INTERVAL: u32 = 1;

/// What the wallet contract's protocol answered when asked to prepare a transfer.
#[derive(Clone, Copy, Debug, PartialEq, Eq)]
pub enum TransferAction {
    /// The contract would have to be deployed first.
    DeployFirst,
    /// An unsigned message is ready; this is the hash to sign.
    Sign { hash: [u8; 32] },
}

/// How a broadcast ended.
#[derive(Clone, Copy, Debug, PartialEq, Eq)]
pub enum SendOutcome {
    /// The message was included; the transaction it started has this hash and was or
    /// was not aborted.
    Confirmed { hash: [u8; 32], aborted: bool },
    /// The time to live ran out first.
    Expired,
    /// The transport failed.
    TransportError,
}

/// What the transport does when it fails while polling.
#[derive(Clone, Copy, Debug, PartialEq, Eq)]
pub enum ErrorAction {
    /// Give up and report the failure.
    Return,
    /// Keep polling.
    Poll,
}

/// How a message is to be broadcast. Times are in seconds.
#[derive(Clone, Copy, Debug, PartialEq, Eq)]
pub struct SendOptions {
    pub error_action: ErrorAction,
    pub ttl: u32,
    pub poll_interval: u32,
}

/// Where a send stands.
#[derive(Clone, Debug, PartialEq, Eq)]
pub enum SendStage {
    /// The sender's own account state has been asked for.
    AwaitingAccount { gifts: Vec<Gift> },
    /// The wallet protocol has been asked to prepare the message.
    AwaitingMessage,
    /// The exclusive section has been asked for; the hash waits to be signed.
    AwaitingSection { hash: [u8; 32] },
    /// Inside the exclusive section: the signed message is out, its outcome awaited.
    AwaitingOutcome,
    /// Over.
    Finished,
}

/// What the caller reports back.
#[derive(Clone, Debug, PartialEq, Eq)]
pub enum SendEvent {
    /// The account state was fetched; `None` where the account does not exist.
    Account(Option<AccountState>),
    /// The account state could not be fetched.
    AccountFailed,
    /// The wallet protocol answered.
    Prepared(TransferAction),
    /// The wallet protocol could not build a message.
    PrepareFailed,
    /// The exclusive section has been entered.
    SectionEntered,
    /// The broadcast ended.
    Outcome(SendOutcome),
}

/// What the caller is to do next.
#[derive(Debug, PartialEq, Eq)]
pub enum SendStep {
    /// Fetch the state of this account, which is the sender's own.
    FetchAccount { address: Address },
    /// Have the wallet protocol prepare a message for these transfers against this
    /// state, valid for `timeout` seconds.
    Prepare { account: AccountState, gifts: Vec<Gift>, timeout: u32 },
    /// Enter the signer's exclusive section.
    EnterSection,
    /// Attach this signature to the prepared message and broadcast it, without leaving
    /// the section.
    Broadcast { signature: Signature, options: SendOptions },
    /// Leave the exclusive section; the send ended with this result.
    Leave { result: Result<String, Error> },
    /// The send ended with this failure before the section was entered.
    Return { error: Error },
}

/// The options every message is broadcast with: report a transport failure at once,
/// wait a minute for inclusion, look once a second.
pub open spec fn standard_options() -> SendOptions {
    SendOptions { error_action: ErrorAction::Return, ttl: MESSAGE_TIMEOUT, poll_interval: POLL_INTERVAL }
}

/// True when a batch has a size that one message can carry.
pub open spec fn batch_fits(count: nat) -> bool {
    MIN_BATCH <= count <= MAX_BATCH
}

/// True while a send is inside the exclusive section.
pub open spec fn holds_section(stage: SendStage) -> bool {
    stage is AwaitingOutcome
}

/// The state a transfer is prepared against: the fetched one, or the empty state where
/// the sender's account does not exist yet.
pub open spec fn sender_state(found: Option<AccountState>) -> AccountState {
    match found {
        Some(account) => account,
        None => AccountState { balance: 0, status: AccountStatus::Uninit },
    }
}

/// True when a result is what an outcome means: the transaction's hash in lower-case
/// hexadecimal where it was confirmed and not aborted, and else the failure that tells why.
/// A message that expired is a failure, never a send still pending: nothing is sent
/// again on the caller's behalf, so the caller must know that it may have to.
pub open spec fn is_result_of(result: Result<String, Error>, outcome: SendOutcome) -> bool {
    match outcome {
        SendOutcome::Confirmed { hash, aborted } => if aborted {
            result == Err::<String, Error>(Error::TransactionAborted { hash })
        } else {
            result is Ok && result->Ok_0@ == ascii_text(hex_encoded(hash@))
        },
        SendOutcome::Expired => result == Err::<String, Error>(Error::MessageExpired),
        SendOutcome::TransportError => result == Err::<String, Error>(Error::TransportFailure),
    }
}

/// True when `first` and `step` are how a send of `gifts` from `sender` begins.
pub open spec fn begins(sender: Address, gifts: Vec<Gift>, first: SendStage, step: SendStep) -> bool {
    if batch_fits(gifts@.len()) {
        first == (SendStage::AwaitingAccount { gifts }) && step == (SendStep::FetchAccount {
            address: sender,
        })
    } else {
        first is Finished && step == (SendStep::Return {
            error: Error::InvalidBatchSize { count: gifts@.len() as usize },
        })
    }
}

/// True when `next` and `step` are what follows `stage` on `event` for a signer with
/// the given secret key. An event that the stage does not wait for ends the send, and
/// leaves the section if the send was inside it.
pub open spec fn follows(
    secret: Seq<u8>,
    stage: SendStage,
    event: SendEvent,
    next: SendStage,
    step: SendStep,
) -> bool {
    match (stage, event) {
        (SendStage::AwaitingAccount { gifts }, SendEvent::Account(found)) => {
            &&& next is AwaitingMessage
            &&& step == (SendStep::Prepare {
                account: sender_state(found),
                gifts,
                timeout: MESSAGE_TIMEOUT,
            })
        },
        (SendStage::AwaitingAccount { .. }, SendEvent::AccountFailed) => {
            &&& next is Finished
            &&& step == (SendStep::Return { error: Error::RpcError })
        },
        (SendStage::AwaitingMessage, SendEvent::Prepared(TransferAction::Sign { hash })) => {
            &&& next == (SendStage::AwaitingSection { hash })
            &&& step is EnterSection
        },
        (SendStage::AwaitingMessage, SendEvent::Prepared(TransferAction::DeployFirst)) => {
            &&& next is Finished
            &&& step == (SendStep::Return { error: Error::DeploymentRequired })
        },
        (SendStage::AwaitingMessage, SendEvent::PrepareFailed) => {
            &&& next is Finished
            &&& step == (SendStep::Return { error: Error::EncodingFailure })
        },
        (SendStage::AwaitingSection { hash }, SendEvent::SectionEntered) => {
            &&& next is AwaitingOutcome
            &&& step matches SendStep::Broadcast { signature, options }
            &&& signature@ == ed25519_signature(secret, hash@)
            &&& options == standard_options()
        },
        (SendStage::AwaitingOutcome, SendEvent::Outcome(outcome)) => {
            &&& next is Finished
            &&& step matches SendStep::Leave { result }
            &&& is_result_of(result, outcome)
        },
        (SendStage::AwaitingOutcome, _) => {
            &&& next is Finished
            &&& step == (SendStep::Leave { result: Err(Error::UnexpectedEvent) })
        },
        _ => {
            &&& next is Finished
            &&& step == (SendStep::Return { error: Error::UnexpectedEvent })
        },
    }
}

/// A signature leaves only on entering the exclusive section, the section is held
/// exactly while the outcome is awaited, and every way out of it leaves it: no send ends,
/// on any event, still holding the section.
pub proof fn lemma_section_discipline(
    secret: Seq<u8>,
    stage: SendStage,
    event: SendEvent,
    next: SendStage,
    step: SendStep,
)
    requires
        follows(secret, stage, event, next, step),
    ensures
        step is Broadcast <==> stage is AwaitingSection && event is SectionEntered,
        holds_section(next) <==> step is Broadcast,
        holds_section(stage) <==> step is Leave,
        holds_section(stage) ==> next is Finished,
        step is Leave || step is Return <==> next is Finished,
{
}

/// True when at most one of the sends of a signer is inside the exclusive section.
pub open spec fn at_most_one_inside(sends: Seq<SendStage>) -> bool {
    forall|i: int, j: int|
        0 <= i < sends.len() && 0 <= j < sends.len() && holds_section(#[trigger] sends[i])
            && holds_section(#[trigger] sends[j]) ==> i == j
}

/// Among the sends of one signer at most one is inside the exclusive section, and every
/// step of any of them keeps it so, as long as the section lets a send enter only while
/// no send is inside.
pub proof fn lemma_one_send_inside(
    secret: Seq<u8>,
    sends: Seq<SendStage>,
    which: int,
    event: SendEvent,
    next: SendStage,
    step: SendStep,
)
    requires
        at_most_one_inside(sends),
        0 <= which < sends.len(),
        follows(secret, sends[which], event, next, step),
        event is SectionEntered ==> forall|i: int| 0 <= i < sends.len() ==> !holds_section(sends[i]),
    ensures
        at_most_one_inside(sends.update(which, next)),
{
    let after = sends.update(which, next);
    assert forall|i: int, j: int|
        0 <= i < after.len() && 0 <= j < after.len() && holds_section(#[trigger] after[i])
            && holds_section(#[trigger] after[j]) implies i == j by {
        if i != which && j != which {
            assert(after[i] == sends[i] && after[j] == sends[j]);
        } else if i != j {
            let other = if i == which { j } else { i };
            assert(after[other] == sends[other]);
            assert(holds_section(next));
            assert(event is SectionEntered);
            assert(!holds_section(sends[other]));
        }
    }
}

/// What a confirmed transaction comes to: its hash in lower-case hexadecimal, or, where
/// it was aborted, the failure that carries the hash.
pub fn tx_status(hash: &[u8; 32], aborted: bool) -> (status: Result<String, Error>)
    ensures
        is_result_of(status, SendOutcome::Confirmed { hash: *hash, aborted }),
        status matches Ok(text) ==> text@.len() == 64,
{
    if aborted {
        Err(Error::TransactionAborted { hash: *hash })
    } else {
        let digits = crate::hexcodec::encode(hash.as_slice());
        proof {
            lemma_encoded_is_lower_case(hash@);
        }
        Ok(ascii_string(digits.as_slice()))
    }
}

/// What a broadcast's outcome comes to for the caller of the send.
pub fn outcome_result(outcome: SendOutcome) -> (result: Result<String, Error>)
    ensures
        is_result_of(result, outcome),
{
    match outcome {
        SendOutcome::Confirmed { hash, aborted } => tx_status(&hash, aborted),
        SendOutcome::Expired => Err(Error::MessageExpired),
        SendOutcome::TransportError => Err(Error::TransportFailure),
    }
}

} // verus!

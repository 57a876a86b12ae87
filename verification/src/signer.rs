//! The signer: one key pair, one wallet address, and the operations offered on them.

use vstd::prelude::*;
use vstd::string::*;
use vstd::utf8::encode_utf8;
use crate::account::{AccountState, checked};
use crate::address::{format_address, parse_address, Address, AddressView};
use crate::call::{finished, json_parses, planned, CallRequest, Interface, Purpose};
use crate::error::{Error, Part};
use crate::hexcodec::{hex_decoded, hex_encoded, is_hex_text, lemma_decode_encoded, lemma_encoded_is_lower_case};
use crate::keys::{ed25519_accepts, ed25519_public, ed25519_signature, is_signature, Keypair, PublicKey, Signature};
use crate::payload::{gift_of, record_of, Gift, GiftView, SendPayload};
use crate::pipeline::{
    batch_fits, begins, follows, outcome_result, ErrorAction, SendEvent, SendOptions, SendStage,
    SendStep, TransferAction, MAX_BATCH, MESSAGE_TIMEOUT, MIN_BATCH, POLL_INTERVAL,
};
use crate::text::{ascii_string, ascii_text, lemma_ascii_text_bytes};

verus! {

/// A signer for one wallet.
pub struct TonSigner {
    keypair: Keypair,
    address: Address,
}

/// A balance that waits for the state of its account.
#[derive(Clone, Copy, Debug, PartialEq, Eq)]
pub struct BalanceQuery {
    pub address: Address,
}

/// A signature check that waits for the state of its account.
#[derive(Clone, Debug, PartialEq, Eq)]
pub struct SignatureCheck {
    pub address: Address,
    pub signature: Signature,
    pub message: Vec<u8>,
}

/// What a finished call handed back.
#[derive(Debug, PartialEq, Eq)]
pub enum Completed {
    /// The call as a transfer record.
    Payload(SendPayload),
    /// A send of the call that has begun.
    Sending(SendStage, SendStep),
}

/// The bytes of a hash given as text: exactly 64 hexadecimal digits.
pub open spec fn hash_of(text: Seq<u8>) -> Result<Seq<u8>, Error> {
    if text.len() != 64 {
        Err(Error::BadLength { part: Part::Hash })
    } else if !is_hex_text(text) {
        Err(Error::BadHex { part: Part::Hash })
    } else {
        Ok(hex_decoded(text))
    }
}

/// The parts of a signature check read from text, or the first failure in the order in
/// which the parts are read: the address, the signature's digits, the message's digits,
/// the signature's length, the signature's scalar.
pub open spec fn check_parts(address: Seq<u8>, signature: Seq<u8>, message: Seq<u8>) -> Result<
    (AddressView, Seq<u8>, Seq<u8>),
    Error,
> {
    match parse_address(address) {
        None => Err(Error::BadAddress),
        Some(address) => if !is_hex_text(signature) {
            Err(Error::BadHex { part: Part::Signature })
        } else if !is_hex_text(message) {
            Err(Error::BadHex { part: Part::Message })
        } else if signature.len() != 128 {
            Err(Error::BadLength { part: Part::Signature })
        } else if !is_signature(hex_decoded(signature)) {
            Err(Error::BadSignature)
        } else {
            Ok((address, hex_decoded(signature), hex_decoded(message)))
        },
    }
}

/// What the ledger's cell reader said of the body of the record at `i`. A record that the
/// list of answers does not reach has nothing said for it, which counts as no.
pub open spec fn vouched(trees: Seq<bool>, i: int) -> bool {
    0 <= i < trees.len() && trees[i]
}

/// The transfer that the record at `i` describes, or why it describes none.
pub open spec fn gift_at(records: Seq<SendPayload>, trees: Seq<bool>, i: int) -> Result<GiftView, Error> {
    gift_of(records[i]@, vouched(trees, i))
}

/// True when `k` is the index of the first record that is no transfer.
pub open spec fn first_failure(records: Seq<SendPayload>, trees: Seq<bool>, k: int) -> bool {
    &&& 0 <= k < records.len()
    &&& gift_at(records, trees, k) is Err
    &&& forall|j: int| 0 <= j < k ==> (#[trigger] gift_at(records, trees, j)) is Ok
}

/// What signing returns is read by a signature check over the same hash: text of 128
/// hexadecimal digits that spell bytes passing the scalar check fails no step of the
/// reading, whatever address that parses the check names.
pub proof fn lemma_signed_text_is_read(address: Seq<u8>, hash: Seq<u8>, text: Seq<u8>)
    requires
        parse_address(address) is Some,
        hash_of(hash) is Ok,
        text.len() == 128,
        is_hex_text(text),
        is_signature(hex_decoded(text)),
    ensures
        check_parts(address, text, hash) == Ok::<(AddressView, Seq<u8>, Seq<u8>), Error>(
            (parse_address(address)->0, hex_decoded(text), hash_of(hash)->Ok_0),
        ),
{
}

/// Reads a hash from its text.
pub fn read_hash(hash: &str) -> (bytes: Result<Vec<u8>, Error>)
    ensures
        match hash_of(hash.spec_bytes()) {
            Ok(decoded) => bytes is Ok && bytes->Ok_0@ == decoded,
            Err(error) => bytes == Err::<Vec<u8>, Error>(error),
        },
{
    let text = hash.as_bytes();
    if text.len() != 64 {
        return Err(Error::BadLength { part: Part::Hash });
    }
    match crate::hexcodec::decode(text) {
        Some(bytes) => Ok(bytes),
        None => Err(Error::BadHex { part: Part::Hash }),
    }
}

/// Writes a signature as text: 128 lower-case hexadecimal digits, which spell it again.
pub fn signature_text(signature: &Signature) -> (text: String)
    ensures
        text@ == ascii_text(hex_encoded(signature@)),
        text@.len() == 128,
        encode_utf8(text@).len() == 128,
        is_hex_text(encode_utf8(text@)),
        hex_decoded(encode_utf8(text@)) == signature@,
        is_signature(hex_decoded(encode_utf8(text@))),
{
    let bytes = signature.to_bytes();
    let digits = crate::hexcodec::encode(bytes.as_slice());
    proof {
        lemma_encoded_is_lower_case(bytes@);
        lemma_decode_encoded(bytes@);
        lemma_ascii_text_bytes(digits@);
    }
    ascii_string(digits.as_slice())
}

impl BalanceQuery {
    /// The balance, given the state that was fetched for the address.
    pub fn resolve(&self, state: Option<&AccountState>) -> (amount: Result<u64, Error>)
        ensures
            amount == match state {
                Some(account) => Ok::<u64, Error>(account.balance),
                None => Err::<u64, Error>(Error::AccountNotFound),
            },
    {
        crate::account::balance(state)
    }
}

impl SignatureCheck {
    /// The verdict, given the state that was fetched for the address: a failure where
    /// there is no state or the state yields no key, and else whether the key accepts the
    /// signature. A signature that does not match is `Ok(false)`.
    pub fn resolve(&self, state: Option<&AccountState>) -> (verdict: Result<bool, Error>)
        ensures
            verdict == match checked(
                match state {
                    Some(account) => Some(*account),
                    None => None,
                },
                self.signature@,
                self.message@,
            ) {
                Ok(Some(accepted)) => Ok::<bool, Error>(accepted),
                Ok(None) => Err::<bool, Error>(Error::AccountStateNotFound),
                Err(error) => Err::<bool, Error>(Error::Extraction(error)),
            },
    {
        match crate::account::check_signature(state, &self.signature, self.message.as_slice()) {
            Ok(Some(accepted)) => Ok(accepted),
            Ok(None) => Err(Error::AccountStateNotFound),
            Err(error) => Err(Error::Extraction(error)),
        }
    }
}

impl TonSigner {
    /// The secret key, as contracts see it.
    pub closed spec fn secret(&self) -> Seq<u8> {
        self.keypair.secret()
    }

    /// The wallet's address, as contracts see it.
    pub closed spec fn address(&self) -> Address {
        self.address
    }

    /// A signer for the wallet at `address` that the secret key controls.
    pub fn new(secret: [u8; 32], address: Address) -> (signer: TonSigner)
        ensures
            signer.secret() == secret@,
            signer.address() == address,
    {
        TonSigner { keypair: Keypair::from_secret(secret), address }
    }

    /// The public key of the signer.
    pub fn public_key(&self) -> (key: PublicKey)
        ensures
            key@ == ed25519_public(self.secret()),
    {
        self.keypair.public_key()
    }

    /// The wallet's address in canonical text.
    pub fn wallet_address(&self) -> (text: String)
        ensures
            text@ == ascii_text(format_address(self.address()@)),
            parse_address(encode_utf8(text@)) == Some(self.address()@),
    {
        self.address.to_string()
    }

    /// Begins a balance query: reads the address, whose state is then to be fetched.
    pub fn balance_of(&self, address: &str) -> (query: Result<BalanceQuery, Error>)
        ensures
            match parse_address(address.spec_bytes()) {
                Some(view) => query is Ok && query->Ok_0.address@ == view,
                None => query == Err::<BalanceQuery, Error>(Error::BadAddress),
            },
    {
        match Address::from_str(address) {
            Ok(address) => Ok(BalanceQuery { address }),
            Err(_) => Err(Error::BadAddress),
        }
    }

    /// Signs a hash given as 64 hexadecimal digits and returns the signature as 128
    /// lower-case hexadecimal digits. The signature is the one Ed25519 defines for the
    /// signer's key and the 32 bytes of the hash; what the returned text spells passes
    /// the scalar check of a signature, and the signer's public key accepts it.
    pub fn sign(&self, hash: &str) -> (text: Result<String, Error>)
        ensures
            match hash_of(hash.spec_bytes()) {
                Ok(bytes) => {
                    &&& text is Ok
                    &&& text->Ok_0@ == ascii_text(hex_encoded(ed25519_signature(self.secret(), bytes)))
                    &&& text->Ok_0@.len() == 128
                    &&& encode_utf8(text->Ok_0@).len() == 128
                    &&& is_hex_text(encode_utf8(text->Ok_0@))
                    &&& is_signature(hex_decoded(encode_utf8(text->Ok_0@)))
                    &&& ed25519_accepts(
                        ed25519_public(self.secret()),
                        bytes,
                        hex_decoded(encode_utf8(text->Ok_0@)),
                    )
                },
                Err(error) => text == Err::<String, Error>(error),
            },
    {
        match read_hash(hash) {
            Ok(bytes) => {
                let signature = self.keypair.sign(bytes.as_slice());
                Ok(signature_text(&signature))
            },
            Err(error) => Err(error),
        }
    }

    /// Begins a send of the given transfers in one message.
    pub fn send(&self, gifts: Vec<Gift>) -> (begun: (SendStage, SendStep))
        ensures
            begins(self.address(), gifts, begun.0, begun.1),
    {
        let count = gifts.len();
        if MIN_BATCH <= count && count <= MAX_BATCH {
            (SendStage::AwaitingAccount { gifts }, SendStep::FetchAccount { address: self.address })
        } else {
            (SendStage::Finished, SendStep::Return { error: Error::InvalidBatchSize { count } })
        }
    }

    /// Takes a send one stage further on an event.
    pub fn advance(&self, stage: SendStage, event: SendEvent) -> (moved: (SendStage, SendStep))
        ensures
            follows(self.secret(), stage, event, moved.0, moved.1),
    {
        match stage {
            SendStage::AwaitingAccount { gifts } => match event {
                SendEvent::Account(found) => {
                    let account = match found {
                        Some(account) => account,
                        None => AccountState::default(),
                    };
                    (
                        SendStage::AwaitingMessage,
                        SendStep::Prepare { account, gifts, timeout: MESSAGE_TIMEOUT },
                    )
                },
                SendEvent::AccountFailed => (
                    SendStage::Finished,
                    SendStep::Return { error: Error::RpcError },
                ),
                _ => (SendStage::Finished, SendStep::Return { error: Error::UnexpectedEvent }),
            },
            SendStage::AwaitingMessage => match event {
                SendEvent::Prepared(TransferAction::Sign { hash }) => (
                    SendStage::AwaitingSection { hash },
                    SendStep::EnterSection,
                ),
                SendEvent::Prepared(TransferAction::DeployFirst) => (
                    SendStage::Finished,
                    SendStep::Return { error: Error::DeploymentRequired },
                ),
                SendEvent::PrepareFailed => (
                    SendStage::Finished,
                    SendStep::Return { error: Error::EncodingFailure },
                ),
                _ => (SendStage::Finished, SendStep::Return { error: Error::UnexpectedEvent }),
            },
            SendStage::AwaitingSection { hash } => match event {
                SendEvent::SectionEntered => {
                    let signature = self.keypair.sign(hash.as_slice());
                    let options = SendOptions {
                        error_action: ErrorAction::Return,
                        ttl: MESSAGE_TIMEOUT,
                        poll_interval: POLL_INTERVAL,
                    };
                    (SendStage::AwaitingOutcome, SendStep::Broadcast { signature, options })
                },
                _ => (SendStage::Finished, SendStep::Return { error: Error::UnexpectedEvent }),
            },
            SendStage::AwaitingOutcome => match event {
                SendEvent::Outcome(outcome) => (
                    SendStage::Finished,
                    SendStep::Leave { result: outcome_result(outcome) },
                ),
                _ => (
                    SendStage::Finished,
                    SendStep::Leave { result: Err(Error::UnexpectedEvent) },
                ),
            },
            SendStage::Finished => (
                SendStage::Finished,
                SendStep::Return { error: Error::UnexpectedEvent },
            ),
        }
    }

    /// Begins a plain transfer of `amount` to the address `to`.
    pub fn send_evers(&self, to: &str, amount: u64) -> (begun: Result<(SendStage, SendStep), Error>)
        ensures
            match parse_address(to.spec_bytes()) {
                Some(view) => {
                    &&& begun is Ok
                    &&& begun->Ok_0.0 matches SendStage::AwaitingAccount { gifts }
                    &&& gifts@.len() == 1
                    &&& gifts@[0]@ == (GiftView {
                        flags: 3,
                        bounce: false,
                        destination: view,
                        amount,
                        body: None,
                    })
                    &&& begun->Ok_0.1 == (SendStep::FetchAccount { address: self.address() })
                },
                None => begun == Err::<(SendStage, SendStep), Error>(Error::BadAddress),
            },
    {
        match Address::from_str(to) {
            Ok(to) => {
                let mut gifts: Vec<Gift> = Vec::new();
                gifts.push(Gift::transfer(to, amount));
                Ok(self.send(gifts))
            },
            Err(_) => Err(Error::BadAddress),
        }
    }

    /// Checks a call that is to become a transfer record. The body is then to be encoded
    /// and handed to `complete`.
    pub fn make_call_payload(
        &self,
        contract_address: &str,
        attach_amount: u64,
        interface: Option<&Interface>,
        method: &str,
        arguments: &str,
    ) -> (request: Result<CallRequest, Error>)
        ensures
            match planned(
                contract_address.spec_bytes(),
                match interface {
                    Some(interface) => Some(*interface),
                    None => None,
                },
                method@,
                json_parses(arguments@),
            ) {
                Ok(destination) => request is Ok && request->Ok_0.destination@ == destination
                    && request->Ok_0.amount == attach_amount && !request->Ok_0.bounce
                    && request->Ok_0.purpose == Purpose::Payload,
                Err(error) => request == Err::<CallRequest, Error>(error),
            },
    {
        crate::call::call(
            contract_address,
            attach_amount,
            interface,
            method,
            arguments,
            false,
            Purpose::Payload,
        )
    }

    /// Checks a call that is to be sent at once. The body is then to be encoded and handed
    /// to `complete`. A method that the interface does not name fails here, before
    /// anything is encoded, signed or sent.
    pub fn call(
        &self,
        contract_address: &str,
        attach_amount: u64,
        interface: Option<&Interface>,
        method: &str,
        arguments: &str,
    ) -> (request: Result<CallRequest, Error>)
        ensures
            match planned(
                contract_address.spec_bytes(),
                match interface {
                    Some(interface) => Some(*interface),
                    None => None,
                },
                method@,
                json_parses(arguments@),
            ) {
                Ok(destination) => request is Ok && request->Ok_0.destination@ == destination
                    && request->Ok_0.amount == attach_amount && !request->Ok_0.bounce
                    && request->Ok_0.purpose == Purpose::Send,
                Err(error) => request == Err::<CallRequest, Error>(error),
            },
    {
        crate::call::call(
            contract_address,
            attach_amount,
            interface,
            method,
            arguments,
            false,
            Purpose::Send,
        )
    }

    /// Finishes a checked call with what the encoder returned: the encoder's failure, the
    /// transfer record of the call, or the beginning of its send, by the call's purpose.
    pub fn complete(&self, request: CallRequest, encoded: Result<Vec<u8>, Error>) -> (done: Result<
        Completed,
        Error,
    >)
        ensures
            match finished(request, encoded) {
                Err(error) => done == Err::<Completed, Error>(error),
                Ok(gift) => match request.purpose {
                    Purpose::Payload => {
                        &&& done matches Ok(Completed::Payload(record))
                        &&& record@ == record_of(gift)
                        &&& gift_of(record@, true) == Ok::<GiftView, Error>(gift)
                    },
                    Purpose::Send => {
                        &&& done matches Ok(Completed::Sending(stage, step))
                        &&& stage matches SendStage::AwaitingAccount { gifts }
                        &&& gifts@.len() == 1
                        &&& gifts@[0]@ == gift
                        &&& step == (SendStep::FetchAccount { address: self.address() })
                    },
                },
            },
    {
        match request.finish(encoded) {
            Err(error) => Err(error),
            Ok(gift) => match request.purpose {
                Purpose::Payload => match SendPayload::try_from(gift) {
                    Ok(record) => Ok(Completed::Payload(record)),
                    Err(error) => Err(error),
                },
                Purpose::Send => {
                    let mut gifts: Vec<Gift> = Vec::new();
                    gifts.push(gift);
                    let (stage, step) = self.send(gifts);
                    Ok(Completed::Sending(stage, step))
                },
            },
        }
    }

    /// Begins a send of one to three transfers given as records. `trees` holds, record by
    /// record, whether the ledger's cell reader takes the bytes of the record's body for a
    /// tree of cells. The records are read in order and the first that is no transfer
    /// fails the call with its own failure, before anything is fetched; a batch of another
    /// size fails with `InvalidBatchSize`.
    pub fn call_multi(&self, payloads: Vec<SendPayload>, trees: Vec<bool>) -> (begun: Result<
        (SendStage, SendStep),
        Error,
    >)
        ensures
            forall|k: int|
                first_failure(payloads@, trees@, k) ==> begun == Err::<(SendStage, SendStep), Error>(
                    gift_at(payloads@, trees@, k)->Err_0,
                ),
            (forall|j: int|
                0 <= j < payloads@.len() ==> (#[trigger] gift_at(payloads@, trees@, j)) is Ok)
                ==> if batch_fits(payloads@.len()) {
                &&& begun is Ok
                &&& begun->Ok_0.0 matches SendStage::AwaitingAccount { gifts }
                &&& gifts@.len() == payloads@.len()
                &&& forall|j: int|
                    0 <= j < gifts@.len() ==> Ok::<GiftView, Error>((#[trigger] gifts@[j])@)
                        == gift_at(payloads@, trees@, j)
                &&& begun->Ok_0.1 == (SendStep::FetchAccount { address: self.address() })
            } else {
                begun == Err::<(SendStage, SendStep), Error>(
                    Error::InvalidBatchSize { count: payloads@.len() as usize },
                )
            },
    {
        let mut gifts: Vec<Gift> = Vec::new();
        let mut i: usize = 0;
        while i < payloads.len()
            invariant
                0 <= i <= payloads@.len(),
                gifts@.len() == i,
                forall|j: int| 0 <= j < i ==> (#[trigger] gift_at(payloads@, trees@, j)) is Ok,
                forall|j: int|
                    0 <= j < i ==> Ok::<GiftView, Error>((#[trigger] gifts@[j])@) == gift_at(
                        payloads@,
                        trees@,
                        j,
                    ),
            decreases payloads@.len() - i,
        {
            let body_is_tree = i < trees.len() && trees[i];
            match Gift::from_record(&payloads[i], body_is_tree) {
                Ok(gift) => {
                    gifts.push(gift);
                },
                Err(error) => {
                    assert(first_failure(payloads@, trees@, i as int));
                    assert forall|k: int| first_failure(payloads@, trees@, k) implies k == i by {
                        if k < i {
                            assert(gift_at(payloads@, trees@, k) is Ok);
                        } else if k > i {
                            assert(gift_at(payloads@, trees@, i as int) is Ok);
                        }
                    }
                    return Err(error);
                },
            }
            i += 1;
        }
        assert forall|k: int| !first_failure(payloads@, trees@, k) by {
            if 0 <= k < payloads@.len() {
                assert(gift_at(payloads@, trees@, k) is Ok);
            }
        }
        let count = gifts.len();
        if count < MIN_BATCH || count > MAX_BATCH {
            return Err(Error::InvalidBatchSize { count });
        }
        Ok(self.send(gifts))
    }

    /// Begins a signature check: reads the address, the signature and the message from
    /// text. The state of the address is then to be fetched and handed to `resolve`.
    pub fn check_signature(&self, address: &str, signature: &str, message: &str) -> (check: Result<
        SignatureCheck,
        Error,
    >)
        ensures
            match check_parts(address.spec_bytes(), signature.spec_bytes(), message.spec_bytes()) {
                Ok((who, signed, what)) => {
                    &&& check is Ok
                    &&& check->Ok_0.address@ == who
                    &&& check->Ok_0.signature@ == signed
                    &&& check->Ok_0.message@ == what
                },
                Err(error) => check == Err::<SignatureCheck, Error>(error),
            },
    {
        let address = match Address::from_str(address) {
            Ok(address) => address,
            Err(_) => {
                return Err(Error::BadAddress);
            },
        };
        let signature = match crate::hexcodec::decode(signature.as_bytes()) {
            Some(bytes) => bytes,
            None => {
                return Err(Error::BadHex { part: Part::Signature });
            },
        };
        let message = match crate::hexcodec::decode(message.as_bytes()) {
            Some(bytes) => bytes,
            None => {
                return Err(Error::BadHex { part: Part::Message });
            },
        };
        if signature.len() != 64 {
            return Err(Error::BadLength { part: Part::Signature });
        }
        match Signature::from_bytes(signature.as_slice()) {
            Some(signature) => Ok(SignatureCheck { address, signature, message }),
            None => Err(Error::BadSignature),
        }
    }
}

} // verus!

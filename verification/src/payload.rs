//! Transfers and the text records that carry them between processes.

use vstd::prelude::*;
use vstd::string::*;
use vstd::utf8::encode_utf8;
use crate::address::{format_address, lemma_parse_formatted_address, parse_address, Address, AddressView};
use crate::error::Error;
use crate::text::{ascii_text, lemma_ascii_text_bytes};

verus! {

/// The base64 text, standard alphabet with padding, of a byte string.
pub uninterp spec fn base64_text(bytes: Seq<u8>) -> Seq<char>;

/// The bytes that base64 text in the standard alphabet denotes, or `None` where the text
/// is rejected: a symbol outside the alphabet, misplaced padding, a length or trailing
/// bits that no encoding leaves.
pub uninterp spec fn base64_bytes(text: Seq<char>) -> Option<Seq<u8>>;

/// `base64::encode`. Not proved here: that the text returned is the named encoding, and
/// that decoding it gives the bytes back.
#[verifier::external_body]
fn base64_encode(bytes: &[u8]) -> (text: String)
    ensures
        text@ == base64_text(bytes@),
        base64_bytes(text@) == Some(bytes@),
{
    base64::encode(bytes)
}

/// `base64::decode`: the named decoding of the text; the crate's error value is dropped.
#[verifier::external_body]
fn base64_decode(text: &str) -> (bytes: Option<Vec<u8>>)
    ensures
        bytes is Some <==> base64_bytes(text@) is Some,
        bytes matches Some(b) ==> base64_bytes(text@) == Some(b@),
{
    base64::decode(text).ok()
}

/// One outgoing transfer: where the value goes, how much, how the ledger is to treat it,
/// and the message body, as a serialised tree of cells, if the transfer calls a contract.
#[derive(Clone, Debug, PartialEq, Eq)]
pub struct Gift {
    pub flags: u8,
    pub bounce: bool,
    pub destination: Address,
    pub amount: u64,
    pub body: Option<Vec<u8>>,
}

/// A transfer as contracts see it.
pub struct GiftView {
    pub flags: u8,
    pub bounce: bool,
    pub destination: AddressView,
    pub amount: u64,
    pub body: Option<Seq<u8>>,
}

impl View for Gift {
    type V = GiftView;

    open spec fn view(&self) -> GiftView {
        GiftView {
            flags: self.flags,
            bounce: self.bounce,
            destination: self.destination@,
            amount: self.amount,
            body: match self.body {
                Some(body) => Some(body@),
                None => None,
            },
        }
    }
}

/// A transfer in text: the destination in canonical address form and the body in base64.
#[derive(Clone, Debug, PartialEq, Eq)]
pub struct SendPayload {
    pub flags: u8,
    pub bounce: bool,
    pub destination: String,
    pub amount: u64,
    pub body: Option<String>,
}

/// A transfer record as contracts see it.
pub struct SendPayloadView {
    pub flags: u8,
    pub bounce: bool,
    pub destination: Seq<char>,
    pub amount: u64,
    pub body: Option<Seq<char>>,
}

impl View for SendPayload {
    type V = SendPayloadView;

    open spec fn view(&self) -> SendPayloadView {
        SendPayloadView {
            flags: self.flags,
            bounce: self.bounce,
            destination: self.destination@,
            amount: self.amount,
            body: match self.body {
                Some(body) => Some(body@),
                None => None,
            },
        }
    }
}

/// What decoding a record's body gave: `None` for a record without a body,
/// `Some(None)` for a body that is not base64, `Some(Some(bytes))` otherwise.
pub open spec fn decoded_body(body: Option<Seq<char>>) -> Option<Option<Seq<u8>>> {
    match body {
        Some(text) => Some(base64_bytes(text)),
        None => None,
    }
}

/// True when a decoded body cannot be the body of a transfer: the text was not base64, or
/// the bytes are there and the ledger's cell reader does not take them for a tree of
/// cells. A record without a body has nothing to fail on, whatever the reader said.
pub open spec fn body_fails(body: Option<Option<Seq<u8>>>, body_is_tree: bool) -> bool {
    match body {
        Some(None) => true,
        Some(Some(_)) => !body_is_tree,
        None => false,
    }
}

/// The transfer that record fields, an already decoded body and the cell reader's word on
/// that body describe. A body that fails is reported before a destination that is no
/// address.
pub open spec fn assembled(
    flags: u8,
    bounce: bool,
    destination: Seq<char>,
    amount: u64,
    body: Option<Option<Seq<u8>>>,
    body_is_tree: bool,
) -> Result<GiftView, Error> {
    if body_fails(body, body_is_tree) {
        Err(Error::DecodeFailure)
    } else {
        match parse_address(encode_utf8(destination)) {
            None => Err(Error::BadAddress),
            Some(address) => Ok(
                GiftView {
                    flags,
                    bounce,
                    destination: address,
                    amount,
                    body: match body {
                        Some(bytes) => bytes,
                        None => None,
                    },
                },
            ),
        }
    }
}

/// The transfer that a record describes, given whether the ledger's cell reader takes
/// the bytes of its body for a tree of cells.
pub open spec fn gift_of(record: SendPayloadView, body_is_tree: bool) -> Result<GiftView, Error> {
    assembled(
        record.flags,
        record.bounce,
        record.destination,
        record.amount,
        decoded_body(record.body),
        body_is_tree,
    )
}

/// The record that describes a transfer.
pub open spec fn record_of(gift: GiftView) -> SendPayloadView {
    SendPayloadView {
        flags: gift.flags,
        bounce: gift.bounce,
        destination: ascii_text(format_address(gift.destination)),
        amount: gift.amount,
        body: match gift.body {
            Some(bytes) => Some(base64_text(bytes)),
            None => None,
        },
    }
}

/// Reading undoes writing: the record of a transfer describes that transfer again,
/// wherever the base64 text of its body, if it has one, decodes to the body and the cell
/// reader takes the body for the tree of cells it was serialised from.
pub proof fn lemma_record_round_trip(gift: GiftView)
    requires
        gift.destination.hash.len() == 32,
        gift.body matches Some(bytes) ==> base64_bytes(base64_text(bytes)) == Some(bytes),
    ensures
        gift_of(record_of(gift), true) == Ok::<GiftView, Error>(gift),
{
    lemma_parse_formatted_address(gift.destination);
    lemma_ascii_text_bytes(format_address(gift.destination));
    let back = gift_of(record_of(gift), true);
    assert(back is Ok);
    assert(back->Ok_0.body == gift.body);
}

impl Gift {
    /// A plain transfer of value: no body, no bounce, and the flags that make the sender
    /// pay the fees and ignore errors of the action.
    pub fn transfer(destination: Address, amount: u64) -> (gift: Gift)
        ensures
            gift@ == (GiftView {
                flags: 3,
                bounce: false,
                destination: destination@,
                amount,
                body: None,
            }),
    {
        Gift { flags: 3, bounce: false, destination, amount, body: None }
    }

    /// Builds the transfer from a record's fields once its body has been decoded and the
    /// ledger's cell reader has been asked about the bytes. `body` is `None` for a record
    /// without a body, `Some(None)` for a body that is not base64, and the bytes
    /// otherwise; `body_is_tree` is the reader's answer, and counts only where there are
    /// bytes.
    pub fn assemble(
        flags: u8,
        bounce: bool,
        destination: &str,
        amount: u64,
        body: Option<Option<Vec<u8>>>,
        body_is_tree: bool,
    ) -> (gift: Result<Gift, Error>)
        ensures
            match assembled(
                flags,
                bounce,
                destination@,
                amount,
                match body {
                    Some(Some(bytes)) => Some(Some(bytes@)),
                    Some(None) => Some(None),
                    None => None,
                },
                body_is_tree,
            ) {
                Ok(view) => gift is Ok && gift->Ok_0@ == view,
                Err(error) => gift == Err::<Gift, Error>(error),
            },
    {
        let body = match body {
            Some(None) => {
                return Err(Error::DecodeFailure);
            },
            Some(Some(bytes)) => {
                if !body_is_tree {
                    return Err(Error::DecodeFailure);
                }
                Some(bytes)
            },
            None => None,
        };
        match Address::from_str(destination) {
            Ok(destination) => Ok(Gift { flags, bounce, destination, amount, body }),
            Err(_) => Err(Error::BadAddress),
        }
    }

    /// Reads a transfer from its record: the body from base64, the destination from
    /// address text. `body_is_tree` tells whether the ledger's cell reader takes the bytes
    /// of the body, as `SendPayload::body_bytes` gives them, for a tree of cells.
    pub fn from_record(record: &SendPayload, body_is_tree: bool) -> (gift: Result<Gift, Error>)
        ensures
            match gift_of(record@, body_is_tree) {
                Ok(view) => gift is Ok && gift->Ok_0@ == view,
                Err(error) => gift == Err::<Gift, Error>(error),
            },
    {
        Gift::assemble(
            record.flags,
            record.bounce,
            record.destination.as_str(),
            record.amount,
            record.body_bytes(),
            body_is_tree,
        )
    }

    /// Reads a transfer from its record, taking the record.
    pub fn try_from(value: SendPayload, body_is_tree: bool) -> (gift: Result<Gift, Error>)
        ensures
            match gift_of(value@, body_is_tree) {
                Ok(view) => gift is Ok && gift->Ok_0@ == view,
                Err(error) => gift == Err::<Gift, Error>(error),
            },
    {
        Gift::from_record(&value, body_is_tree)
    }
}

impl SendPayload {
    /// The bytes of the record's body: `None` for a record without a body, `Some(None)`
    /// for a body that is not base64, and the decoded bytes otherwise. These are the bytes
    /// that the ledger's cell reader is to be asked about.
    pub fn body_bytes(&self) -> (bytes: Option<Option<Vec<u8>>>)
        ensures
            decoded_body(self@.body) == match bytes {
                Some(Some(decoded)) => Some(Some(decoded@)),
                Some(None) => Some(None::<Seq<u8>>),
                None => None::<Option<Seq<u8>>>,
            },
    {
        match &self.body {
            Some(text) => Some(base64_decode(text.as_str())),
            None => None,
        }
    }

    /// Writes a transfer as a record. This never fails, and reading the record gives the
    /// transfer back wherever the body is the tree of cells that a transfer's body is.
    pub fn try_from(value: Gift) -> (record: Result<SendPayload, Error>)
        ensures
            record is Ok,
            record->Ok_0@ == record_of(value@),
            gift_of(record->Ok_0@, true) == Ok::<GiftView, Error>(value@),
    {
        let body = match &value.body {
            Some(bytes) => Some(base64_encode(bytes.as_slice())),
            None => None,
        };
        let destination = value.destination.to_string();
        let record = SendPayload {
            flags: value.flags,
            bounce: value.bounce,
            destination,
            amount: value.amount,
            body,
        };
        proof {
            lemma_record_round_trip(value@);
        }
        Ok(record)
    }
}

} // verus!

//! Contract calls: what is checked before a message body is encoded, and what becomes of
//! the body once it is.

use vstd::prelude::*;
use vstd::string::*;
use crate::address::{parse_address, Address, AddressView};
use crate::error::Error;
use crate::payload::{Gift, GiftView};
use crate::text::same_text;

verus! {

/// Whether text parses as one JSON value.
pub uninterp spec fn json_parses(text: Seq<char>) -> bool;

/// `serde_json::from_str` at the type `Value`: whether the text is one JSON value.
#[verifier::external_body]
fn is_json(text: &str) -> (ok: bool)
    ensures
        ok == json_parses(text@),
{
    serde_json::from_str::<serde_json::Value>(text).is_ok()
}

/// What the wallet reads of a contract's interface description: the names of its methods.
#[derive(Clone, Debug, PartialEq, Eq)]
pub struct Interface {
    pub methods: Vec<String>,
}

/// What a call is prepared for.
#[derive(Clone, Copy, Debug, PartialEq, Eq)]
pub enum Purpose {
    /// A transfer record, to be sent later, alone or in a batch.
    Payload,
    /// Sending at once.
    Send,
}

/// A call that passed every check that needs no encoder: where it goes, what value it
/// carries, and what it is for. Its body is still to be encoded.
#[derive(Clone, Copy, Debug, PartialEq, Eq)]
pub struct CallRequest {
    pub destination: Address,
    pub amount: u64,
    pub bounce: bool,
    pub purpose: Purpose,
}

/// True when the interface has a method of the given name.
pub open spec fn has_method(methods: Seq<String>, name: Seq<char>) -> bool {
    exists|i: int| 0 <= i < methods.len() && (#[trigger] methods[i])@ == name
}

/// The outcome of the checks before encoding, in the order in which they are made: the
/// address, the interface description, the method's name, the arguments.
pub open spec fn planned(
    address: Seq<u8>,
    interface: Option<Interface>,
    method: Seq<char>,
    arguments_parse: bool,
) -> Result<AddressView, Error> {
    match parse_address(address) {
        None => Err(Error::BadAddress),
        Some(destination) => match interface {
            None => Err(Error::BadInterface),
            Some(interface) => if !has_method(interface.methods@, method) {
                Err(Error::UnknownMethod)
            } else if !arguments_parse {
                Err(Error::ArgumentMismatch)
            } else {
                Ok(destination)
            },
        },
    }
}

/// The transfer that a checked call becomes once the encoder has answered: the encoder's
/// failure, or a transfer with the encoded body and the flags of a plain transfer.
pub open spec fn finished(request: CallRequest, encoded: Result<Vec<u8>, Error>) -> Result<GiftView, Error> {
    match encoded {
        Ok(body) => Ok(
            GiftView {
                flags: 3,
                bounce: request.bounce,
                destination: request.destination@,
                amount: request.amount,
                body: Some(body@),
            },
        ),
        Err(error) => Err(error),
    }
}

impl Interface {
    /// Whether the interface has a method of the given name.
    pub fn has(&self, name: &str) -> (found: bool)
        ensures
            found == has_method(self.methods@, name@),
    {
        let mut i: usize = 0;
        while i < self.methods.len()
            invariant
                0 <= i <= self.methods@.len(),
                forall|j: int| 0 <= j < i ==> (#[trigger] self.methods@[j])@ != name@,
            decreases self.methods@.len() - i,
        {
            if same_text(self.methods[i].as_str(), name) {
                return true;
            }
            i += 1;
        }
        false
    }
}

/// Checks a call as far as it can be checked once it is known whether the arguments are
/// JSON. `interface` is `None` where the description could not be read.
pub fn plan_call(
    contract_address: &str,
    attach_amount: u64,
    interface: Option<&Interface>,
    method: &str,
    arguments_parse: bool,
    bounce: bool,
    purpose: Purpose,
) -> (request: Result<CallRequest, Error>)
    ensures
        match planned(
            contract_address.spec_bytes(),
            match interface {
                Some(interface) => Some(*interface),
                None => None,
            },
            method@,
            arguments_parse,
        ) {
            Ok(destination) => request is Ok && request->Ok_0.destination@ == destination
                && request->Ok_0.amount == attach_amount && request->Ok_0.bounce == bounce
                && request->Ok_0.purpose == purpose,
            Err(error) => request == Err::<CallRequest, Error>(error),
        },
{
    let destination = match Address::from_str(contract_address) {
        Ok(destination) => destination,
        Err(_) => {
            return Err(Error::BadAddress);
        },
    };
    let interface = match interface {
        Some(interface) => interface,
        None => {
            return Err(Error::BadInterface);
        },
    };
    if !interface.has(method) {
        return Err(Error::UnknownMethod);
    }
    if !arguments_parse {
        return Err(Error::ArgumentMismatch);
    }
    Ok(CallRequest { destination, amount: attach_amount, bounce, purpose })
}

/// Checks a call before its body is encoded: the address must be one, the interface
/// description must have been read and must name the method, the arguments must be JSON.
pub fn call(
    contract_address: &str,
    attach_amount: u64,
    interface: Option<&Interface>,
    method: &str,
    arguments: &str,
    bounce: bool,
    purpose: Purpose,
) -> (request: Result<CallRequest, Error>)
    ensures
        match planned(
            contract_address.spec_bytes(),
            match interface {
                Some(interface) => Some(*interface),
                None => None,
            },
            method@,
            json_parses(arguments@),
        ) {
            Ok(destination) => request is Ok && request->Ok_0.destination@ == destination
                && request->Ok_0.amount == attach_amount && request->Ok_0.bounce == bounce
                && request->Ok_0.purpose == purpose,
            Err(error) => request == Err::<CallRequest, Error>(error),
        },
{
    let arguments_parse = is_json(arguments);
    plan_call(contract_address, attach_amount, interface, method, arguments_parse, bounce, purpose)
}

impl CallRequest {
    /// Makes the transfer of a checked call from what the encoder returned: its body, or
    /// the failure it reported.
    pub fn finish(&self, encoded: Result<Vec<u8>, Error>) -> (gift: Result<Gift, Error>)
        ensures
            match finished(*self, encoded) {
                Ok(view) => gift is Ok && gift->Ok_0@ == view,
                Err(error) => gift == Err::<Gift, Error>(error),
            },
    {
        match encoded {
            Ok(body) => Ok(
                Gift {
                    flags: 3,
                    bounce: self.bounce,
                    destination: self.destination,
                    amount: self.amount,
                    body: Some(body),
                },
            ),
            Err(error) => Err(error),
        }
    }
}

} // verus!

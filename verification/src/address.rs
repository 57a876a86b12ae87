//! Account addresses in their `workchain:hash` text form.

use vstd::prelude::*;
use vstd::string::*;
use vstd::utf8::encode_utf8;
use vstd::slice::slice_subrange;
use crate::decimal::{format_signed, is_digit, lemma_parse_formatted, parse_signed};
use crate::error::Error;
use crate::bytes::array_32;
use crate::hexcodec::{hex_decoded, hex_encoded, is_hex_text, lemma_decode_encoded, lemma_encoded_is_lower_case};
use crate::text::{ascii_string, ascii_text, is_ascii_bytes, lemma_ascii_text_bytes, COLON, MINUS};

verus! {

/// The address of an account: the workchain it lives in and the 256-bit hash that names it there.
#[derive(Clone, Copy, Debug, PartialEq, Eq)]
pub struct Address {
    pub workchain: i32,
    pub hash: [u8; 32],
}

/// An address as contracts see it.
pub struct AddressView {
    pub workchain: i32,
    pub hash: Seq<u8>,
}

impl View for Address {
    type V = AddressView;

    open spec fn view(&self) -> AddressView {
        AddressView { workchain: self.workchain, hash: self.hash@ }
    }
}

/// True when `k` is where the first colon of the text stands.
pub open spec fn is_first_colon(text: Seq<u8>, k: int) -> bool {
    &&& 0 <= k < text.len()
    &&& text[k] == COLON
    &&& forall|j: int| 0 <= j < k ==> text[j] != COLON
}

/// The address that text denotes: a signed decimal workchain, a colon, and exactly 64
/// hexadecimal digits in either case. `None` for any other text.
pub open spec fn parse_address(text: Seq<u8>) -> Option<AddressView> {
    if exists|k: int| is_first_colon(text, k) {
        let k = choose|k: int| is_first_colon(text, k);
        let workchain = parse_signed(text.subrange(0, k));
        let digits = text.subrange(k + 1, text.len() as int);
        if workchain is Some && digits.len() == 64 && is_hex_text(digits) {
            Some(AddressView { workchain: workchain->0, hash: hex_decoded(digits) })
        } else {
            None
        }
    } else {
        None
    }
}

/// The canonical text of an address: the workchain in decimal, a colon, the hash in
/// lower-case hexadecimal.
pub open spec fn format_address(address: AddressView) -> Seq<u8> {
    format_signed(address.workchain) + seq![COLON] + hex_encoded(address.hash)
}

/// The first colon of a text is unique.
proof fn lemma_first_colon_unique(text: Seq<u8>, k: int)
    requires
        is_first_colon(text, k),
    ensures
        (choose|j: int| is_first_colon(text, j)) == k,
{
    let j = choose|j: int| is_first_colon(text, j);
    assert(is_first_colon(text, j));
    if j < k {
        assert(text[j] != COLON);
    } else if k < j {
        assert(text[k] != COLON);
    }
}

/// Reading undoes writing: the canonical text of an address is plain ASCII and denotes
/// that address again.
pub proof fn lemma_parse_formatted_address(address: AddressView)
    requires
        address.hash.len() == 32,
    ensures
        is_ascii_bytes(format_address(address)),
        parse_address(format_address(address)) == Some(address),
{
    let head = format_signed(address.workchain);
    let tail = hex_encoded(address.hash);
    let text = format_address(address);
    let k = head.len() as int;
    lemma_parse_formatted(address.workchain);
    lemma_decode_encoded(address.hash);
    lemma_encoded_is_lower_case(address.hash);
    assert forall|j: int| 0 <= j < k implies text[j] != COLON by {
        assert(text[j] == head[j]);
        let c = head[j];
        assert(c == MINUS || is_digit(c));
    }
    assert(text[k] == COLON);
    assert(is_first_colon(text, k));
    lemma_first_colon_unique(text, k);
    assert(text.subrange(0, k) =~= head);
    assert(text.subrange(k + 1, text.len() as int) =~= tail);
    assert forall|i: int| 0 <= i < text.len() implies #[trigger] text[i] < 128 by {
        if i < k {
            assert(text[i] == head[i]);
            let c = head[i];
            assert(c == MINUS || is_digit(c));
        } else if i > k {
            assert(text[i] == tail[i - k - 1]);
            let c = tail[i - k - 1];
            assert(c < 128);
        }
    }
}

impl Address {
    /// Reads an address from the bytes of its text.
    pub fn parse(text: &[u8]) -> (address: Option<Address>)
        ensures
            match parse_address(text@) {
                Some(view) => address is Some && address->0@ == view,
                None => address is None,
            },
    {
        let len = text.len();
        let mut k: usize = 0;
        while k < len && text[k] != COLON
            invariant
                0 <= k <= len,
                len == text@.len(),
                forall|j: int| 0 <= j < k ==> text@[j] != COLON,
            decreases len - k,
        {
            k += 1;
        }
        if k == len {
            assert forall|j: int| !is_first_colon(text@, j) by {
                if 0 <= j < len {
                    assert(text@[j] != COLON);
                }
            }
            return None;
        }
        proof {
            assert(is_first_colon(text@, k as int));
            lemma_first_colon_unique(text@, k as int);
        }
        let workchain = crate::decimal::parse(slice_subrange(text, 0, k));
        let digits = slice_subrange(text, k + 1, len);
        if digits.len() != 64 {
            return None;
        }
        match (workchain, crate::hexcodec::decode(digits)) {
            (Some(workchain), Some(bytes)) => {
                let hash = array_32(bytes.as_slice());
                Some(Address { workchain, hash })
            },
            _ => None,
        }
    }

    /// Reads an address from its text; any text that is not an address is `BadAddress`.
    pub fn from_str(s: &str) -> (address: Result<Address, Error>)
        ensures
            match parse_address(s.spec_bytes()) {
                Some(view) => address is Ok && address->Ok_0@ == view,
                None => address == Err::<Address, Error>(Error::BadAddress),
            },
    {
        match Address::parse(s.as_bytes()) {
            Some(address) => Ok(address),
            None => Err(Error::BadAddress),
        }
    }

    /// The canonical text of the address, as bytes.
    pub fn to_bytes(&self) -> (text: Vec<u8>)
        ensures
            text@ == format_address(self@),
    {
        let mut text = crate::decimal::format(self.workchain);
        text.push(COLON);
        let mut digits = crate::hexcodec::encode(self.hash.as_slice());
        text.append(&mut digits);
        assert(text@ =~= format_address(self@));
        text
    }

    /// The canonical text of the address. Reading it gives the address back.
    pub fn to_string(&self) -> (s: String)
        ensures
            s@ == ascii_text(format_address(self@)),
            parse_address(encode_utf8(s@)) == Some(self@),
    {
        let text = self.to_bytes();
        proof {
            lemma_parse_formatted_address(self@);
            lemma_ascii_text_bytes(text@);
        }
        ascii_string(text.as_slice())
    }
}

} // verus!

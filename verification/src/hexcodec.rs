//! Hexadecimal text, as the ledger's tools read and print it: two digits per byte,
//! either case accepted, lower case produced.

use vstd::prelude::*;
use crate::text::{DIGIT_0, DIGIT_9, LOWER_A, LOWER_F, UPPER_A, UPPER_F};

verus! {

/// The value of a hexadecimal digit given as an ASCII byte; `None` for any other byte.
pub open spec fn digit_value(c: u8) -> Option<u8> {
    if DIGIT_0 <= c <= DIGIT_9 {
        Some((c - DIGIT_0) as u8)
    } else if LOWER_A <= c <= LOWER_F {
        Some((c - LOWER_A + 10) as u8)
    } else if UPPER_A <= c <= UPPER_F {
        Some((c - UPPER_A + 10) as u8)
    } else {
        None
    }
}

/// The lower-case digit, as an ASCII byte, for a value below 16.
pub open spec fn digit_of(value: u8) -> u8 {
    if value < 10 {
        (DIGIT_0 + value) as u8
    } else {
        (LOWER_A + (value - 10)) as u8
    }
}

/// True when the text is a whole number of digit pairs.
pub open spec fn is_hex_text(text: Seq<u8>) -> bool {
    &&& text.len() % 2 == 0
    &&& forall|i: int| 0 <= i < text.len() ==> (#[trigger] digit_value(text[i])) is Some
}

/// The bytes that hexadecimal text spells: each pair of digits gives one byte, high digit first.
pub open spec fn hex_decoded(text: Seq<u8>) -> Seq<u8> {
    Seq::new(
        text.len() / 2,
        |i: int| (16 * digit_value(text[2 * i])->0 + digit_value(text[2 * i + 1])->0) as u8,
    )
}

/// The lower-case hexadecimal text of a byte string.
pub open spec fn hex_encoded(bytes: Seq<u8>) -> Seq<u8> {
    Seq::new(
        2 * bytes.len(),
        |i: int| if i % 2 == 0 { digit_of(bytes[i / 2] / 16) } else { digit_of(bytes[i / 2] % 16) },
    )
}

/// Decoding undoes encoding: the text produced for a byte string is valid and spells it again.
pub proof fn lemma_decode_encoded(bytes: Seq<u8>)
    ensures
        is_hex_text(hex_encoded(bytes)),
        hex_decoded(hex_encoded(bytes)) == bytes,
{
    let text = hex_encoded(bytes);
    assert forall|i: int| 0 <= i < text.len() implies (#[trigger] digit_value(text[i])) is Some by {
        let b = bytes[i / 2];
        assert(b / 16 < 16 && b % 16 < 16);
    }
    assert forall|i: int| 0 <= i < bytes.len() implies hex_decoded(text)[i] == bytes[i] by {
        let b = bytes[i];
        assert((2 * i) / 2 == i && (2 * i + 1) / 2 == i);
        assert((2 * i) % 2 == 0 && (2 * i + 1) % 2 == 1);
        assert(digit_value(digit_of(b / 16)) == Some(b / 16));
        assert(digit_value(digit_of(b % 16)) == Some(b % 16));
        assert(16 * (b / 16) + b % 16 == b);
    }
    assert(hex_decoded(text) =~= bytes);
}

/// Produced text is canonical: digits and the lower-case letters `a` to `f` only.
pub proof fn lemma_encoded_is_lower_case(bytes: Seq<u8>)
    ensures
        hex_encoded(bytes).len() == 2 * bytes.len(),
        forall|i: int|
            0 <= i < hex_encoded(bytes).len() ==> {
                let c = #[trigger] hex_encoded(bytes)[i];
                DIGIT_0 <= c <= DIGIT_9 || LOWER_A <= c <= LOWER_F
            },
{
    let text = hex_encoded(bytes);
    assert forall|i: int| 0 <= i < text.len() implies {
        let c = #[trigger] text[i];
        DIGIT_0 <= c <= DIGIT_9 || LOWER_A <= c <= LOWER_F
    } by {
        let b = bytes[i / 2];
        assert(b / 16 < 16 && b % 16 < 16);
    }
}

/// Reading ignores case: an upper-case letter has the value of its lower-case form.
pub proof fn lemma_digit_case(c: u8)
    requires
        UPPER_A <= c <= UPPER_F,
    ensures
        digit_value(c) == digit_value((c + 32) as u8),
{
}

/// `hex::decode`: succeeds exactly on an even number of hexadecimal digits, and then
/// returns one byte per pair, high digit first. The crate's error value is dropped.
#[verifier::external_body]
pub(crate) fn decode(text: &[u8]) -> (bytes: Option<Vec<u8>>)
    ensures
        bytes is Some <==> is_hex_text(text@),
        bytes matches Some(b) ==> b@ == hex_decoded(text@),
{
    hex::decode(text).ok()
}

/// `hex::encode`: two lower-case digits per byte, high digit first, as ASCII bytes.
#[verifier::external_body]
pub(crate) fn encode(bytes: &[u8]) -> (text: Vec<u8>)
    ensures
        text@ == hex_encoded(bytes@),
{
    hex::encode(bytes).into_bytes()
}

} // verus!

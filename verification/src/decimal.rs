//! Signed decimal numbers in text, as a workchain is written in an address.

use vstd::prelude::*;
use crate::text::{DIGIT_0, DIGIT_9, MINUS, PLUS};

verus! {

/// True when the byte is one of the ten decimal digits.
pub open spec fn is_digit(c: u8) -> bool {
    DIGIT_0 <= c <= DIGIT_9
}

/// True when the text is one or more decimal digits.
pub open spec fn is_decimal(text: Seq<u8>) -> bool {
    &&& text.len() > 0
    &&& forall|i: int| 0 <= i < text.len() ==> is_digit(#[trigger] text[i])
}

/// The number that a run of decimal digits denotes; leading zeros count for nothing.
pub open spec fn decimal_value(text: Seq<u8>) -> nat
    decreases text.len(),
{
    if text.len() == 0 {
        0
    } else {
        decimal_value(text.drop_last()) * 10 + (text.last() - DIGIT_0) as nat
    }
}

/// The shortest run of digits for a number: no leading zero, and `0` for zero.
pub open spec fn decimal_digits(n: nat) -> Seq<u8>
    decreases n,
{
    if n < 10 {
        seq![(DIGIT_0 + n) as u8]
    } else {
        decimal_digits(n / 10).push((DIGIT_0 + n % 10) as u8)
    }
}

/// The number that signed decimal text denotes, where it fits in 32 bits: an optional
/// `+` or `-`, then one or more digits. `None` for any other text.
pub open spec fn parse_signed(text: Seq<u8>) -> Option<i32> {
    if text.len() > 0 && text[0] == MINUS {
        let digits = text.drop_first();
        if is_decimal(digits) && decimal_value(digits) <= 0x8000_0000 {
            Some((-decimal_value(digits)) as i32)
        } else {
            None
        }
    } else if text.len() > 0 && text[0] == PLUS {
        let digits = text.drop_first();
        if is_decimal(digits) && decimal_value(digits) <= 0x7fff_ffff {
            Some(decimal_value(digits) as i32)
        } else {
            None
        }
    } else if is_decimal(text) && decimal_value(text) <= 0x7fff_ffff {
        Some(decimal_value(text) as i32)
    } else {
        None
    }
}

/// The canonical text of a 32-bit number: `-` before a negative one, no `+`, no leading zero.
pub open spec fn format_signed(n: i32) -> Seq<u8> {
    if n < 0 {
        seq![MINUS] + decimal_digits((-n) as nat)
    } else {
        decimal_digits(n as nat)
    }
}

/// Appending one digit multiplies the value by ten and adds the digit.
pub proof fn lemma_value_push(text: Seq<u8>, c: u8)
    ensures
        decimal_value(text.push(c)) == decimal_value(text) * 10 + (c - DIGIT_0) as nat,
{
    assert(text.push(c).drop_last() =~= text);
}

/// The value of a run of digits is at least the value of each of its prefixes.
pub proof fn lemma_value_prefix(text: Seq<u8>, k: int)
    requires
        0 <= k <= text.len(),
        forall|i: int| 0 <= i < text.len() ==> is_digit(#[trigger] text[i]),
    ensures
        decimal_value(text.subrange(0, k)) <= decimal_value(text),
    decreases text.len() - k,
{
    if k == text.len() {
        assert(text.subrange(0, k) =~= text);
    } else {
        let shorter = text.drop_last();
        assert(is_digit(text[text.len() - 1]));
        if k == text.len() - 1 {
            assert(text.subrange(0, k) =~= shorter);
        } else {
            assert(forall|i: int| 0 <= i < shorter.len() ==> is_digit(#[trigger] shorter[i])) by {
                assert forall|i: int| 0 <= i < shorter.len() implies is_digit(#[trigger] shorter[i]) by {
                    assert(shorter[i] == text[i]);
                }
            }
            lemma_value_prefix(shorter, k);
            assert(shorter.subrange(0, k) =~= text.subrange(0, k));
        }
    }
}

/// The digits written for a number are digits, start with no sign, and denote the number.
pub proof fn lemma_digits_denote(n: nat)
    ensures
        is_decimal(decimal_digits(n)),
        decimal_value(decimal_digits(n)) == n,
    decreases n,
{
    if n < 10 {
        let text = decimal_digits(n);
        assert(text.drop_last() =~= Seq::<u8>::empty());
        assert(decimal_value(text.drop_last()) == 0);
    } else {
        lemma_digits_denote(n / 10);
        let head = decimal_digits(n / 10);
        let c = (DIGIT_0 + n % 10) as u8;
        lemma_value_push(head, c);
        assert forall|i: int| 0 <= i < head.push(c).len() implies is_digit(#[trigger] head.push(c)[i]) by {
            if i < head.len() {
                assert(head.push(c)[i] == head[i]);
            }
        }
    }
}

/// Reading undoes writing: the canonical text of a number denotes that number.
pub proof fn lemma_parse_formatted(n: i32)
    ensures
        parse_signed(format_signed(n)) == Some(n),
        forall|i: int|
            0 <= i < format_signed(n).len() ==> {
                let c = #[trigger] format_signed(n)[i];
                c == MINUS || is_digit(c)
            },
{
    let text = format_signed(n);
    if n < 0 {
        let digits = decimal_digits((-n) as nat);
        lemma_digits_denote((-n) as nat);
        assert(text.drop_first() =~= digits);
        assert(text[0] == MINUS);
        assert forall|i: int| 0 <= i < text.len() implies {
            let c = #[trigger] text[i];
            c == MINUS || is_digit(c)
        } by {
            if i > 0 {
                assert(text[i] == digits[i - 1]);
            }
        }
    } else {
        lemma_digits_denote(n as nat);
        assert(is_digit(text[0]));
    }
}

/// Appends the shortest decimal text of `n`.
fn push_digits(out: &mut Vec<u8>, n: u64)
    ensures
        final(out)@ == old(out)@ + decimal_digits(n as nat),
    decreases n,
{
    if n >= 10 {
        push_digits(out, n / 10);
    }
    let c: u8 = DIGIT_0 + (n % 10) as u8;
    out.push(c);
    assert(final(out)@ =~= old(out)@ + decimal_digits(n as nat));
}

/// Writes a 32-bit number in its canonical decimal text.
pub fn format(n: i32) -> (text: Vec<u8>)
    ensures
        text@ == format_signed(n),
{
    let mut out: Vec<u8> = Vec::new();
    if n < 0 {
        out.push(MINUS);
        let magnitude: u64 = (-(n as i64)) as u64;
        push_digits(&mut out, magnitude);
        assert(out@ =~= format_signed(n));
    } else {
        push_digits(&mut out, n as u64);
        assert(out@ =~= format_signed(n));
    }
    out
}

/// Reads signed decimal text into a 32-bit number.
pub fn parse(text: &[u8]) -> (n: Option<i32>)
    ensures
        n == parse_signed(text@),
{
    let len = text.len();
    if len == 0 {
        return None;
    }
    let negative = text[0] == MINUS;
    let start: usize = if text[0] == MINUS || text[0] == PLUS { 1 } else { 0 };
    let limit: u64 = if negative { 0x8000_0000 } else { 0x7fff_ffff };
    let ghost digits = text@.subrange(start as int, len as int);
    assert(start == 1 ==> digits =~= text@.drop_first());
    assert(start == 0 ==> digits =~= text@);
    if start == len {
        return None;
    }
    let mut value: u64 = 0;
    let mut i: usize = start;
    while i < len
        invariant
            start <= i <= len,
            len == text@.len(),
            digits == text@.subrange(start as int, len as int),
            forall|j: int| 0 <= j < i - start ==> is_digit(#[trigger] digits[j]),
            value == decimal_value(digits.subrange(0, i - start)),
            value <= limit,
            limit == if negative { 0x8000_0000u64 } else { 0x7fff_ffffu64 },
            negative == (text@[0] == MINUS),
            start == if text@[0] == MINUS || text@[0] == PLUS { 1usize } else { 0usize },
            start == 1 ==> digits == text@.drop_first(),
            start == 0 ==> digits == text@,
        decreases len - i,
    {
        let c: u8 = text[i];
        assert(c == digits[i - start]);
        if c < DIGIT_0 || c > DIGIT_9 {
            assert(!is_digit(digits[i - start]));
            assert(!is_decimal(digits));
            return None;
        }
        let next: u64 = value * 10 + (c - DIGIT_0) as u64;
        proof {
            lemma_value_push(digits.subrange(0, i - start), c);
            assert(digits.subrange(0, i - start).push(c) =~= digits.subrange(0, i - start + 1));
        }
        if next > limit {
            proof {
                if is_decimal(digits) {
                    lemma_value_prefix(digits, i - start + 1);
                }
            }
            return None;
        }
        value = next;
        i += 1;
    }
    assert(digits.subrange(0, i - start) =~= digits);
    assert(is_decimal(digits));
    if negative {
        Some((-(value as i64)) as i32)
    } else {
        Some(value as i32)
    }
}

} // verus!

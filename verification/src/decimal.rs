//! Unsigned decimal numbers as they are written on a command line.

use vstd::prelude::*;

verus! {

/// The value of a decimal digit; `None` for any other character.
pub open spec fn digit_of(c: char) -> Option<nat> {
    if 0x30 <= c as u32 <= 0x39 {
        Some((c as u32 - 0x30) as nat)
    } else {
        None
    }
}

/// The number that a run of decimal digits writes, most significant digit
/// first; `None` if one of the characters is no digit. The empty run writes
/// zero.
pub open spec fn digits_value(digits: Seq<char>) -> Option<nat>
    decreases digits.len(),
{
    if digits.len() == 0 {
        Some(0)
    } else {
        match (digits_value(digits.drop_last()), digit_of(digits.last())) {
            (Some(high), Some(low)) => Some(10 * high + low),
            _ => None,
        }
    }
}

/// The text without the plus sign it may start with.
pub open spec fn unsigned_part(text: Seq<char>) -> Seq<char> {
    if text.len() > 0 && text[0] == '+' {
        text.subrange(1, text.len() as int)
    } else {
        text
    }
}

/// The number a text writes: an optional plus sign, then at least one
/// decimal digit and nothing else, with a value that fits in 32 bits.
pub open spec fn decimal_u32(text: Seq<char>) -> Option<u32> {
    let digits = unsigned_part(text);
    if digits.len() == 0 {
        None
    } else {
        match digits_value(digits) {
            Some(value) => if value <= u32::MAX {
                Some(value as u32)
            } else {
                None
            },
            None => None,
        }
    }
}

/// A run of digits has a value only if each of its beginnings has one, and
/// no beginning writes a larger number than the whole.
pub proof fn lemma_beginning_bounds_value(digits: Seq<char>, k: int)
    requires
        0 <= k <= digits.len(),
        digits_value(digits) is Some,
    ensures
        digits_value(digits.subrange(0, k)) is Some,
        digits_value(digits.subrange(0, k))->Some_0 <= digits_value(digits)->Some_0,
    decreases digits.len(),
{
    if k == digits.len() {
        assert(digits.subrange(0, k) =~= digits);
    } else {
        lemma_beginning_bounds_value(digits.drop_last(), k);
        assert(digits.drop_last().subrange(0, k) =~= digits.subrange(0, k));
    }
}

/// Reads an unsigned decimal number: an optional plus sign followed by
/// digits only. Gives `None` for any other text, the empty one included,
/// and for a number that does not fit in 32 bits.
pub fn parse_u32(text: &str) -> (value: Option<u32>)
    ensures
        value == decimal_u32(text@),
{
    let len = text.unicode_len();
    if len == 0 {
        return None;
    }
    let start: usize = if text.get_char(0) == '+' {
        1
    } else {
        0
    };
    if start == len {
        return None;
    }
    let ghost digits = unsigned_part(text@);
    assert(digits =~= text@.subrange(start as int, len as int));
    let mut value: u64 = 0;
    let mut at: usize = start;
    assert(text@.subrange(start as int, at as int) =~= Seq::<char>::empty());
    while at < len
        invariant
            start <= at <= len,
            len == text@.len(),
            digits == unsigned_part(text@),
            digits == text@.subrange(start as int, len as int),
            digits_value(text@.subrange(start as int, at as int)) == Some(value as nat),
            value <= u32::MAX,
        decreases len - at,
    {
        let c = text.get_char(at);
        let code = c as u32;
        let ghost read = text@.subrange(start as int, at as int + 1);
        proof {
            assert(read.drop_last() =~= text@.subrange(start as int, at as int));
            assert(read.last() == c);
            assert(read =~= digits.subrange(0, at + 1 - start));
            assert(digits_value(read) == match digit_of(c) {
                Some(low) => Some(10 * (value as nat) + low),
                None => None,
            });
            if digits_value(digits) is Some {
                lemma_beginning_bounds_value(digits, at + 1 - start);
            }
        }
        if code < 0x30 || code > 0x39 {
            return None;
        }
        value = value * 10 + (code - 0x30) as u64;
        if value > u32::MAX as u64 {
            return None;
        }
        at = at + 1;
    }
    assert(text@.subrange(start as int, at as int) =~= digits);
    Some(value as u32)
}

} // verus!

//! Programs written as text: two hexadecimal digits for each byte, with
//! blanks wherever the writer likes.

use vstd::prelude::*;
use vstd::string::*;

verus! {

/// Why a text is no program.
#[derive(Debug, Clone, Copy, PartialEq, Eq, Structural)]
pub enum HexError {
    /// The text holds a character that is neither a hexadecimal digit nor a
    /// blank.
    InvalidDigit,
    /// The text holds an odd number of digits, so the last byte is cut in
    /// half.
    OddDigits,
}

/// Whether the character separates digits and counts for nothing else: a
/// space, a tabulator, a line feed or a carriage return.
pub open spec fn is_blank(c: char) -> bool {
    c == ' ' || c == '\t' || c == '\n' || c == '\r'
}

/// The value of a hexadecimal digit, in either case.
pub open spec fn digit_value(c: char) -> Option<u8> {
    if '0' <= c <= '9' {
        Some((c as u8 - '0' as u8) as u8)
    } else if 'a' <= c <= 'f' {
        Some((c as u8 - 'a' as u8 + 10) as u8)
    } else if 'A' <= c <= 'F' {
        Some((c as u8 - 'A' as u8 + 10) as u8)
    } else {
        None
    }
}

/// The characters of `text` that are not blanks.
pub open spec fn digits_of(text: Seq<char>) -> Seq<char>
    decreases text.len(),
{
    if text.len() == 0 {
        Seq::empty()
    } else if is_blank(text.last()) {
        digits_of(text.drop_last())
    } else {
        digits_of(text.drop_last()).push(text.last())
    }
}

/// Whether every character is a hexadecimal digit.
pub open spec fn all_hex(digits: Seq<char>) -> bool {
    forall|i: int| 0 <= i < digits.len() ==> (#[trigger] digit_value(digits[i])).is_some()
}

/// The byte that two digits make, the first worth sixteen times the second.
pub open spec fn byte_of(high: char, low: char) -> u8 {
    (digit_value(high).unwrap() * 16 + digit_value(low).unwrap()) as u8
}

/// The bytes that the digits make, pair by pair.
pub open spec fn bytes_of(digits: Seq<char>) -> Seq<u8> {
    Seq::new(digits.len() / 2, |i: int| byte_of(digits[2 * i], digits[2 * i + 1]))
}

/// The program that a text holds, or why it holds none.
pub open spec fn decoded_hex(text: Seq<char>) -> Result<Seq<u8>, HexError> {
    let digits = digits_of(text);
    if !all_hex(digits) {
        Err(HexError::InvalidDigit)
    } else if digits.len() % 2 != 0 {
        Err(HexError::OddDigits)
    } else {
        Ok(bytes_of(digits))
    }
}

/// The plain value of an outcome of decoding.
pub open spec fn outcome_view(outcome: Result<Vec<u8>, HexError>) -> Result<Seq<u8>, HexError> {
    match outcome {
        Ok(bytes) => Ok(bytes@),
        Err(e) => Err(e),
    }
}

/// The digits of a text are those of its beginning, then those of its rest.
proof fn lemma_digits_split(head: Seq<char>, rest: Seq<char>)
    ensures
        digits_of(head + rest) == digits_of(head) + digits_of(rest),
    decreases rest.len(),
{
    if rest.len() == 0 {
        assert(head + rest =~= head);
        assert(digits_of(head) + digits_of(rest) =~= digits_of(head));
    } else {
        let whole = head + rest;
        assert(whole.drop_last() =~= head + rest.drop_last());
        assert(whole.last() == rest.last());
        lemma_digits_split(head, rest.drop_last());
        if is_blank(rest.last()) {
        } else {
            assert(digits_of(head) + digits_of(rest.drop_last()).push(rest.last()) =~= (digits_of(
                head,
            ) + digits_of(rest.drop_last())).push(rest.last()));
        }
    }
}

fn value_of(c: char) -> (value: Option<u8>)
    ensures
        value == digit_value(c),
        value matches Some(v) ==> v < 16,
{
    if '0' <= c && c <= '9' {
        Some(c as u8 - '0' as u8)
    } else if 'a' <= c && c <= 'f' {
        Some(c as u8 - 'a' as u8 + 10)
    } else if 'A' <= c && c <= 'F' {
        Some(c as u8 - 'A' as u8 + 10)
    } else {
        None
    }
}

fn blank(c: char) -> (b: bool)
    ensures
        b == is_blank(c),
{
    c == ' ' || c == '\t' || c == '\n' || c == '\r'
}

/// Reads a program from text.
pub fn decode_hex(text: &str) -> (outcome: Result<Vec<u8>, HexError>)
    ensures
        outcome_view(outcome) == decoded_hex(text@),
{
    let mut bytes: Vec<u8> = Vec::new();
    let mut high: Option<u8> = None;
    let ghost mut digits: Seq<char> = Seq::empty();
    for c in it: text.chars()
        invariant
            it.seq() == text@,
            digits == digits_of(text@.take(it.index() as int)),
            all_hex(digits),
            bytes@ == bytes_of(digits),
            high.is_some() <==> digits.len() % 2 == 1,
            high matches Some(h) ==> h < 16 && digit_value(digits.last()) == Some(h),
    {
        let ghost at = it.index() as int;
        proof {
            assert(text@.take(at + 1).drop_last() =~= text@.take(at));
        }
        if !blank(c) {
            match value_of(c) {
                None => {
                    proof {
                        let head = text@.take(at + 1);
                        let rest = text@.skip(at + 1);
                        assert(head + rest =~= text@);
                        lemma_digits_split(head, rest);
                        let all = digits_of(text@);
                        assert(all[digits.len() as int] == c);
                        assert(!all_hex(all));
                    }
                    return Err(HexError::InvalidDigit);
                },
                Some(low) => {
                    let ghost before = digits;
                    proof {
                        digits = digits.push(c);
                    }
                    match high {
                        None => {
                            high = Some(low);
                            assert(bytes_of(digits) =~= bytes_of(before));
                        },
                        Some(h) => {
                            bytes.push(h * 16 + low);
                            high = None;
                            assert(bytes@ =~= bytes_of(digits));
                        },
                    }
                },
            }
        }
    }
    assert(text@.take(text@.len() as int) =~= text@);
    if high.is_some() {
        Err(HexError::OddDigits)
    } else {
        Ok(bytes)
    }
}

} // verus!

//! Numbers and optional values as the text that headers and bodies carry.

use crate::path::{decimal, is_digit};
use vstd::prelude::*;
use vstd::string::*;
use vstd::utf8::*;

verus! {

/// The character of a decimal digit.
pub open spec fn digit_char(digit: int) -> char {
    if digit == 0 {
        '0'
    } else if digit == 1 {
        '1'
    } else if digit == 2 {
        '2'
    } else if digit == 3 {
        '3'
    } else if digit == 4 {
        '4'
    } else if digit == 5 {
        '5'
    } else if digit == 6 {
        '6'
    } else if digit == 7 {
        '7'
    } else if digit == 8 {
        '8'
    } else {
        '9'
    }
}

/// A natural number in base ten, without leading zeros.
pub open spec fn natural_text(n: nat) -> Seq<char>
    decreases n,
{
    if n < 10 {
        seq![digit_char(n as int)]
    } else {
        natural_text(n / 10).push(digit_char((n % 10) as int))
    }
}

/// An integer in base ten, with a minus sign where it is negative.
pub open spec fn integer_text(n: int) -> Seq<char> {
    if n < 0 {
        seq!['-'] + natural_text((-n) as nat)
    } else {
        natural_text(n as nat)
    }
}

/// The text of an optional text.
pub open spec fn opt_text(value: Option<String>) -> Option<Seq<char>> {
    match value {
        Some(text) => Some(text@),
        None => None,
    }
}

/// The text of an optional integer.
pub open spec fn opt_integer_text(value: Option<i64>) -> Option<Seq<char>> {
    match value {
        Some(n) => Some(integer_text(n as int)),
        None => None,
    }
}

fn digit_str(digit: u64) -> (text: &'static str)
    requires
        digit < 10,
    ensures
        text@ == seq![digit_char(digit as int)],
{
    proof {
        reveal_strlit("0");
        reveal_strlit("1");
        reveal_strlit("2");
        reveal_strlit("3");
        reveal_strlit("4");
        reveal_strlit("5");
        reveal_strlit("6");
        reveal_strlit("7");
        reveal_strlit("8");
        reveal_strlit("9");
    }
    let text = if digit == 0 {
        "0"
    } else if digit == 1 {
        "1"
    } else if digit == 2 {
        "2"
    } else if digit == 3 {
        "3"
    } else if digit == 4 {
        "4"
    } else if digit == 5 {
        "5"
    } else if digit == 6 {
        "6"
    } else if digit == 7 {
        "7"
    } else if digit == 8 {
        "8"
    } else {
        "9"
    };
    assert(text@ =~= seq![digit_char(digit as int)]);
    text
}

/// Appends `n` in base ten to `out`.
pub fn push_natural(out: &mut String, n: u64)
    ensures
        final(out)@ == old(out)@ + natural_text(n as nat),
    decreases n,
{
    if n >= 10 {
        push_natural(out, n / 10);
    }
    out.append(digit_str(n % 10));
    assert(out@ =~= old(out)@ + natural_text(n as nat));
}

/// `n` in base ten.
pub fn integer_to_text(n: i64) -> (text: String)
    ensures
        text@ == integer_text(n as int),
{
    let mut text = String::new();
    if n < 0 {
        proof {
            reveal_strlit("-");
        }
        text.append("-");
        let magnitude: u64 = (-(n + 1)) as u64 + 1;
        push_natural(&mut text, magnitude);
        assert(text@ =~= integer_text(n as int));
    } else {
        push_natural(&mut text, n as u64);
        assert(text@ =~= integer_text(n as int));
    }
    text
}

/// The text of an optional integer.
pub fn opt_integer_to_text(value: Option<i64>) -> (text: Option<String>)
    ensures
        opt_text(text) == opt_integer_text(value),
{
    match value {
        Some(n) => Some(integer_to_text(n)),
        None => None,
    }
}

/// A copy of an optional text.
pub fn opt_clone(value: &Option<String>) -> (copy: Option<String>)
    ensures
        opt_text(copy) == opt_text(*value),
{
    match value {
        Some(text) => Some(text.clone()),
        None => None,
    }
}

/// Whether every byte of `text` is a digit.
pub open spec fn all_digits(text: Seq<u8>) -> bool {
    forall|i: int| 0 <= i < text.len() ==> is_digit(#[trigger] text[i])
}

/// The integer that `text` writes: a plus or minus sign or none, then one
/// digit or more, and nothing else. Zeros in front are allowed.
pub open spec fn parsed_integer(text: Seq<u8>) -> Option<int> {
    let signed = text.len() > 0 && (text[0] == 0x2b || text[0] == 0x2d);
    let digits = if signed {
        text.skip(1)
    } else {
        text
    };
    if digits.len() == 0 || !all_digits(digits) {
        None
    } else if signed && text[0] == 0x2d {
        Some(-decimal(digits))
    } else {
        Some(decimal(digits))
    }
}

/// The integer that `text` writes, where 64 bits hold it.
pub open spec fn parsed_i64(text: Seq<u8>) -> Option<i64> {
    match parsed_integer(text) {
        Some(value) => if i64::MIN <= value <= i64::MAX {
            Some(value as i64)
        } else {
            None
        },
        None => None,
    }
}

/// The flag that `text` writes: `true` or `false`, and nothing else.
pub open spec fn parsed_bool(text: Seq<char>) -> Option<bool> {
    if text == "true"@ {
        Some(true)
    } else if text == "false"@ {
        Some(false)
    } else {
        None
    }
}

/// The number that a run of digits writes is not negative, and does not
/// shrink when the run gets longer.
proof fn lemma_decimal_grows(digits: Seq<u8>, shorter: int)
    requires
        all_digits(digits),
        0 <= shorter <= digits.len(),
    ensures
        0 <= decimal(digits.take(shorter)) <= decimal(digits),
    decreases digits.len() - shorter,
{
    if shorter == digits.len() {
        assert(digits.take(shorter) =~= digits);
        lemma_decimal_not_negative(digits);
    } else {
        lemma_decimal_grows(digits, shorter + 1);
        let longer = digits.take(shorter + 1);
        assert(longer.drop_last() =~= digits.take(shorter));
        assert(longer.last() == digits[shorter]);
        assert(all_digits(digits.take(shorter))) by {
            assert forall|i: int| 0 <= i < shorter implies is_digit(
                #[trigger] digits.take(shorter)[i],
            ) by {
                assert(digits.take(shorter)[i] == digits[i]);
            }
        }
        lemma_decimal_not_negative(digits.take(shorter));
    }
}

proof fn lemma_decimal_not_negative(digits: Seq<u8>)
    requires
        all_digits(digits),
    ensures
        0 <= decimal(digits),
    decreases digits.len(),
{
    if digits.len() > 0 {
        assert forall|i: int| 0 <= i < digits.drop_last().len() implies is_digit(
            #[trigger] digits.drop_last()[i],
        ) by {
            assert(digits.drop_last()[i] == digits[i]);
        }
        lemma_decimal_not_negative(digits.drop_last());
        assert(is_digit(digits[digits.len() - 1]));
    }
}

/// Reads an integer as `parsed_i64` says.
pub fn parse_i64(text: &str) -> (value: Option<i64>)
    ensures
        value == parsed_i64(text.spec_bytes()),
{
    let bytes = text.as_bytes();
    let len = bytes.len();
    if len == 0 {
        return None;
    }
    let negative = bytes[0] == 0x2d;
    let start: usize = if bytes[0] == 0x2b || bytes[0] == 0x2d {
        1
    } else {
        0
    };
    let ghost digits = if start == 1 {
        bytes@.skip(1)
    } else {
        bytes@
    };
    if start == len {
        return None;
    }
    let limit: u64 = if negative {
        0x8000_0000_0000_0000
    } else {
        0x7fff_ffff_ffff_ffff
    };
    let mut magnitude: u64 = 0;
    let mut i: usize = start;
    while i < len
        invariant
            start <= i <= len,
            len == bytes@.len(),
            start <= 1,
            digits == bytes@.skip(start as int),
            forall|x: int| 0 <= x < i - start ==> is_digit(#[trigger] digits[x]),
            magnitude == decimal(digits.take(i - start)),
            magnitude <= limit,
            limit == if negative {
                0x8000_0000_0000_0000u64
            } else {
                0x7fff_ffff_ffff_ffffu64
            },
            bytes@ == text.spec_bytes(),
            len > 0,
            negative == (bytes@[0] == 0x2d),
            start == if bytes@[0] == 0x2b || bytes@[0] == 0x2d {
                1int
            } else {
                0int
            },
        decreases len - i,
    {
        let b = bytes[i];
        assert(digits[i - start] == b);
        if b < 0x30 || b > 0x39 {
            assert(!all_digits(digits));
            return None;
        }
        let d: u64 = (b - 0x30) as u64;
        proof {
            let longer = digits.take(i - start + 1);
            assert(longer.drop_last() =~= digits.take(i - start));
            assert(longer.last() == b);
        }
        if magnitude > (limit - d) / 10 {
            proof {
                // the rest of the digits may be anything: the number is out of reach
                assert(bytes@.skip(0) =~= bytes@);
                assert(10 * magnitude + d > limit);
                assert(decimal(digits.take(i - start + 1)) == 10 * magnitude + d);
                if all_digits(digits) {
                    lemma_decimal_grows(digits, i - start + 1);
                    assert(decimal(digits) > limit);
                }
            }
            return None;
        }
        magnitude = magnitude * 10 + d;
        i = i + 1;
    }
    assert(digits.take(len - start) =~= digits);
    assert(all_digits(digits));
    if negative {
        if magnitude == 0x8000_0000_0000_0000 {
            Some(i64::MIN)
        } else {
            Some(-(magnitude as i64))
        }
    } else {
        Some(magnitude as i64)
    }
}

/// Reads a flag as `parsed_bool` says.
pub fn parse_bool(text: &str) -> (value: Option<bool>)
    ensures
        value == parsed_bool(text@),
{
    proof {
        reveal_strlit("true");
        reveal_strlit("false");
    }
    let len = text.unicode_len();
    if len == 4 {
        if text.get_char(0) == 't' && text.get_char(1) == 'r' && text.get_char(2) == 'u'
            && text.get_char(3) == 'e' {
            assert(text@ =~= "true"@);
            return Some(true);
        }
        assert(text@ != "true"@);
        assert(text@ != "false"@);
        None
    } else if len == 5 {
        if text.get_char(0) == 'f' && text.get_char(1) == 'a' && text.get_char(2) == 'l'
            && text.get_char(3) == 's' && text.get_char(4) == 'e' {
            assert(text@ =~= "false"@);
            return Some(false);
        }
        assert(text@ != "true"@);
        assert(text@ != "false"@);
        None
    } else {
        None
    }
}

/// Whether two texts are the same.
pub fn same_text(a: &str, b: &str) -> (same: bool)
    ensures
        same == (a@ == b@),
{
    let left = a.as_bytes();
    let right = b.as_bytes();
    let len = left.len();
    if len != right.len() {
        return false;
    }
    let mut i: usize = 0;
    while i < len
        invariant
            i <= len,
            len == left@.len(),
            len == right@.len(),
            left@ == a.spec_bytes(),
            right@ == b.spec_bytes(),
            forall|x: int| 0 <= x < i ==> left@[x] == right@[x],
        decreases len - i,
    {
        if left[i] != right[i] {
            return false;
        }
        i = i + 1;
    }
    proof {
        // the bytes are the same, and so are the texts that they encode
        assert(left@ =~= right@);
        encode_utf8_decode_utf8(a@);
        encode_utf8_decode_utf8(b@);
    }
    true
}

} // verus!

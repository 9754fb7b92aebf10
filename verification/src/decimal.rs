//! Unsigned decimal numbers as text.

use vstd::prelude::*;
use vstd::string::*;

verus! {

/// `c` is one of the ten decimal digits.
pub open spec fn is_digit(c: char) -> bool {
    '0' <= c <= '9'
}

/// The value of a decimal digit.
pub open spec fn digit_value(c: char) -> nat {
    (c as int - '0' as int) as nat
}

/// The decimal digit of a value below ten.
pub open spec fn digit_char(value: nat) -> char {
    seq!['0', '1', '2', '3', '4', '5', '6', '7', '8', '9'][value as int]
}

/// Every character of `text` is a decimal digit.
pub open spec fn all_digits(text: Seq<char>) -> bool {
    forall|i: int| 0 <= i < text.len() ==> is_digit(#[trigger] text[i])
}

/// The number that a run of decimal digits writes, most significant first.
pub open spec fn digits_value(text: Seq<char>) -> nat
    decreases text.len(),
{
    if text.len() == 0 {
        0
    } else {
        digits_value(text.drop_last()) * 10 + digit_value(text.last())
    }
}

/// `text` without a leading plus sign.
pub open spec fn unsigned_body(text: Seq<char>) -> Seq<char> {
    if text.len() > 0 && text[0] == '+' {
        text.skip(1)
    } else {
        text
    }
}

/// The number that `text` writes: an optional plus sign, then one or more
/// decimal digits and nothing else. `None` for any other text.
pub open spec fn unsigned_decimal(text: Seq<char>) -> Option<nat> {
    let body = unsigned_body(text);
    if body.len() > 0 && all_digits(body) {
        Some(digits_value(body))
    } else {
        None
    }
}

/// The number that `text` writes, where it fits sixteen bits.
pub open spec fn decimal_u16(text: Seq<char>) -> Option<u16> {
    match unsigned_decimal(text) {
        Some(value) => if value <= u16::MAX {
            Some(value as u16)
        } else {
            None
        },
        None => None,
    }
}

/// The shortest decimal text of a number.
pub open spec fn decimal_text(value: nat) -> Seq<char>
    decreases value,
{
    if value < 10 {
        seq![digit_char(value)]
    } else {
        decimal_text(value / 10).push(digit_char(value % 10))
    }
}

/// A run of digits writes no less than any of its prefixes.
pub proof fn lemma_digits_value_grows(text: Seq<char>, n: int)
    requires
        0 <= n <= text.len(),
    ensures
        digits_value(text.take(n)) <= digits_value(text),
    decreases text.len() - n,
{
    if n == text.len() {
        assert(text.take(n) =~= text);
    } else {
        lemma_digits_value_grows(text, n + 1);
        assert(text.take(n + 1).drop_last() =~= text.take(n));
    }
}

/// A digit written for a value is a digit, stands for that value, and is
/// no sign.
pub proof fn lemma_digit_char(value: nat)
    requires
        value < 10,
    ensures
        is_digit(digit_char(value)),
        digit_value(digit_char(value)) == value,
        digit_char(value) != '+',
{
    let digits = seq!['0', '1', '2', '3', '4', '5', '6', '7', '8', '9'];
    assert(digits[0] == '0');
    assert(digits[1] == '1');
    assert(digits[2] == '2');
    assert(digits[3] == '3');
    assert(digits[4] == '4');
    assert(digits[5] == '5');
    assert(digits[6] == '6');
    assert(digits[7] == '7');
    assert(digits[8] == '8');
    assert(digits[9] == '9');
}

/// The decimal text of a number is one or more digits that write the
/// number.
pub proof fn lemma_decimal_text_is_digits(value: nat)
    ensures
        decimal_text(value).len() > 0,
        all_digits(decimal_text(value)),
        digits_value(decimal_text(value)) == value,
    decreases value,
{
    let text = decimal_text(value);
    if value < 10 {
        lemma_digit_char(value);
        assert(text.drop_last() =~= Seq::<char>::empty());
        assert(digits_value(text.drop_last()) == 0);
    } else {
        lemma_decimal_text_is_digits(value / 10);
        lemma_digit_char(value % 10);
        assert(text.drop_last() =~= decimal_text(value / 10));
        assert(text.last() == digit_char(value % 10));
        assert forall|i: int| 0 <= i < text.len() implies is_digit(#[trigger] text[i]) by {
            if i < text.len() - 1 {
                assert(text[i] == decimal_text(value / 10)[i]);
            }
        }
    }
}

/// What is written can be read: the decimal text of a number reads as
/// that number.
pub proof fn lemma_decimal_text_reads_back(value: nat)
    ensures
        unsigned_decimal(decimal_text(value)) == Some(value),
        value <= u16::MAX ==> decimal_u16(decimal_text(value)) == Some(value as u16),
{
    lemma_decimal_text_is_digits(value);
    let text = decimal_text(value);
    assert(is_digit(text[0]));
    assert(unsigned_body(text) == text);
}

/// Reads an unsigned decimal number of at most sixteen bits.
pub fn parse_u16(text: &str) -> (value: Option<u16>)
    ensures
        value == decimal_u16(text@),
{
    let len = text.unicode_len();
    let start: usize = if len > 0 && text.get_char(0) == '+' {
        1
    } else {
        0
    };
    let ghost body = unsigned_body(text@);
    if start == len {
        return None;
    }
    let mut acc: u32 = 0;
    let mut i: usize = start;
    assert(body.take(0) =~= Seq::<char>::empty());
    while i < len
        invariant
            start <= i <= len,
            len == text@.len(),
            body == unsigned_body(text@),
            body.len() == len - start,
            forall|k: int| 0 <= k < body.len() ==> body[k] == text@[k + start],
            all_digits(body.take(i - start)),
            acc == digits_value(body.take(i - start)),
            acc <= u16::MAX,
        decreases len - i,
    {
        let c = text.get_char(i);
        let ghost seen = body.take(i - start + 1);
        assert(seen.drop_last() =~= body.take(i - start));
        assert(seen.last() == c);
        if !('0' <= c && c <= '9') {
            assert(!is_digit(body[i - start]));
            return None;
        }
        let digit: u32 = c as u32 - '0' as u32;
        acc = acc * 10 + digit;
        if acc > u16::MAX as u32 {
            proof {
                lemma_digits_value_grows(body, i - start + 1);
            }
            return None;
        }
        assert forall|k: int| 0 <= k < seen.len() implies is_digit(#[trigger] seen[k]) by {
            if k < seen.len() - 1 {
                assert(seen[k] == body.take(i - start)[k]);
            }
        }
        i += 1;
    }
    assert(body.take(len - start) =~= body);
    Some(acc as u16)
}

/// The text of one decimal digit.
fn digit_text(value: u16) -> (text: &'static str)
    requires
        value < 10,
    ensures
        text@ == seq![digit_char(value as nat)],
{
    proof {
        reveal_strlit("0");
        reveal_strlit("1");
        reveal_strlit("2");
        reveal_strlit("3");
        reveal_strlit("4");
        reveal_strlit("5");
        reveal_strlit("6");
        reveal_strlit("7");
        reveal_strlit("8");
        reveal_strlit("9");
    }
    let text = if value == 0 {
        "0"
    } else if value == 1 {
        "1"
    } else if value == 2 {
        "2"
    } else if value == 3 {
        "3"
    } else if value == 4 {
        "4"
    } else if value == 5 {
        "5"
    } else if value == 6 {
        "6"
    } else if value == 7 {
        "7"
    } else if value == 8 {
        "8"
    } else {
        "9"
    };
    assert(text@ =~= seq![digit_char(value as nat)]);
    text
}

/// Writes a number in decimal, without sign or leading zeros.
pub fn render_u16(value: u16) -> (text: String)
    ensures
        text@ == decimal_text(value as nat),
    decreases value,
{
    if value < 10 {
        String::from_str(digit_text(value))
    } else {
        let head = render_u16(value / 10);
        let text = head.concat(digit_text(value % 10));
        assert(text@ =~= decimal_text(value as nat));
        text
    }
}

} // verus!

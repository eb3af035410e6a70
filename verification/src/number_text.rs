//! Numbers as they are typed into and shown in form fields.

use vstd::prelude::*;

verus! {

/// Whether a character is white space in the sense of Unicode.
pub open spec fn is_white_space(c: char) -> bool {
    ||| 0x9 <= c as u32 <= 0xd
    ||| c as u32 == 0x20
    ||| c as u32 == 0x85
    ||| c as u32 == 0xa0
    ||| c as u32 == 0x1680
    ||| 0x2000 <= c as u32 <= 0x200a
    ||| 0x2028 <= c as u32 <= 0x2029
    ||| c as u32 == 0x202f
    ||| c as u32 == 0x205f
    ||| c as u32 == 0x3000
}

/// Tells whether a character is white space in the sense of Unicode.
pub fn white_space(c: char) -> (white: bool)
    ensures
        white == is_white_space(c),
{
    let code: u32 = c as u32;
    (0x9 <= code && code <= 0xd) || code == 0x20 || code == 0x85 || code == 0xa0 || code == 0x1680
        || (0x2000 <= code && code <= 0x200a) || (0x2028 <= code && code <= 0x2029) || code
        == 0x202f || code == 0x205f || code == 0x3000
}

/// `text` without the white space that it starts with.
pub open spec fn trimmed_start(text: Seq<char>) -> Seq<char>
    decreases text.len(),
{
    if text.len() > 0 && is_white_space(text[0]) {
        trimmed_start(text.drop_first())
    } else {
        text
    }
}

/// `text` without the white space that it ends with.
pub open spec fn trimmed_end(text: Seq<char>) -> Seq<char>
    decreases text.len(),
{
    if text.len() > 0 && is_white_space(text.last()) {
        trimmed_end(text.drop_last())
    } else {
        text
    }
}

/// `text` without the white space around it.
pub open spec fn trimmed(text: Seq<char>) -> Seq<char> {
    trimmed_end(trimmed_start(text))
}

/// Returns the characters of `text`.
pub fn characters(text: &str) -> (chars: Vec<char>)
    ensures
        chars@ == text@,
{
    let mut chars: Vec<char> = Vec::new();
    for c in iter: text.chars()
        invariant
            chars@ == iter.seq().take(iter.index() as int),
            iter.seq() == text@,
    {
        chars.push(c);
    }
    chars
}

/// Returns `text` without the white space around it.
pub fn trim(text: &str) -> (rest: String)
    ensures
        rest@ == trimmed(text@),
{
    let chars = characters(text);
    let mut start: usize = 0;
    let mut end: usize = chars.len();
    proof {
        assert(chars@.subrange(0, chars@.len() as int) =~= chars@);
    }
    while start < end && white_space(chars[start])
        invariant
            start <= end == chars.len(),
            chars@ == text@,
            trimmed_start(text@) == trimmed_start(text@.subrange(start as int, end as int)),
        decreases end - start,
    {
        proof {
            assert(text@.subrange(start as int, end as int).drop_first() =~= text@.subrange(
                start + 1,
                end as int,
            ));
        }
        start = start + 1;
    }
    while start < end && white_space(chars[end - 1])
        invariant
            start <= end <= chars.len(),
            chars@ == text@,
            trimmed(text@) == trimmed_end(text@.subrange(start as int, end as int)),
        decreases end - start,
    {
        proof {
            assert(text@.subrange(start as int, end as int).drop_last() =~= text@.subrange(
                start as int,
                end - 1,
            ));
        }
        end = end - 1;
    }
    text.substring_char(start, end).to_owned()
}

/// Returns the text without the white space around it, or nothing where nothing is left.
pub fn non_empty(text: &str) -> (value: Option<String>)
    ensures
        match value {
            Some(value) => value@ == trimmed(text@) && trimmed(text@).len() > 0,
            None => trimmed(text@).len() == 0,
        },
{
    let value = trim(text);
    if value.as_str().is_empty() {
        None
    } else {
        Some(value)
    }
}

/// The number that a decimal digit stands for.
pub open spec fn digit_value(c: char) -> nat {
    (c as u32 - '0' as u32) as nat
}

/// Whether a character is a decimal digit.
pub open spec fn is_digit(c: char) -> bool {
    '0' as u32 <= c as u32 <= '9' as u32
}

/// Whether `text` is made of decimal digits, at least one.
pub open spec fn all_digits(text: Seq<char>) -> bool {
    text.len() > 0 && forall|i: int| 0 <= i < text.len() ==> is_digit(#[trigger] text[i])
}

/// The number that decimal digits stand for.
pub open spec fn digits_value(text: Seq<char>) -> nat
    decreases text.len(),
{
    if text.len() == 0 {
        0
    } else {
        digits_value(text.drop_last()) * 10 + digit_value(text.last())
    }
}

/// `text` without a plus sign in front.
pub open spec fn without_plus(text: Seq<char>) -> Seq<char> {
    if text.len() > 0 && text[0] == '+' {
        text.drop_first()
    } else {
        text
    }
}

/// The number in a form field: decimal digits with white space around them and perhaps a
/// plus sign in front, as long as the number fits.
pub open spec fn parsed_u32(text: Seq<char>) -> Option<u32> {
    let digits = without_plus(trimmed(text));
    if all_digits(digits) && digits_value(digits) <= u32::MAX {
        Some(digits_value(digits) as u32)
    } else {
        None
    }
}

proof fn prefix_value_is_smaller(text: Seq<char>, length: int)
    requires
        all_digits(text),
        0 <= length <= text.len(),
    ensures
        digits_value(text.take(length)) <= digits_value(text),
    decreases text.len(),
{
    if length == text.len() {
        assert(text.take(length) =~= text);
    } else {
        let rest = text.drop_last();
        assert(text.take(length) =~= rest.take(length));
        if rest.len() > 0 {
            assert(forall|i: int| 0 <= i < rest.len() ==> rest[i] == text[i]);
            prefix_value_is_smaller(rest, length);
        } else {
            assert(text.take(length) =~= Seq::<char>::empty());
        }
    }
}

/// Reads the number in a form field.
pub fn parse_u32(value: &str) -> (number: Option<u32>)
    ensures
        number == parsed_u32(value@),
{
    let trimmed_value = trim(value);
    let chars = characters(trimmed_value.as_str());
    let mut start: usize = 0;
    if chars.len() > 0 && chars[0] == '+' {
        start = 1;
    }
    let ghost digits = without_plus(trimmed(value@));
    proof {
        assert(digits =~= chars@.skip(start as int));
    }
    if start == chars.len() {
        return None;
    }
    let mut index: usize = start;
    let mut number: u64 = 0;
    while index < chars.len()
        invariant
            start <= index <= chars.len(),
            start < chars.len(),
            digits == chars@.skip(start as int),
            digits == without_plus(trimmed(value@)),
            forall|i: int| 0 <= i < index - start ==> is_digit(#[trigger] digits[i]),
            number == digits_value(digits.take(index - start)),
            number <= u32::MAX,
        decreases chars.len() - index,
    {
        let c = chars[index];
        proof {
            assert(digits[index - start] == c);
            assert(digits.take(index - start + 1).drop_last() =~= digits.take(index - start));
            assert(digits.take(index - start + 1).last() == c);
        }
        let code: u32 = c as u32;
        if code < 48 || code > 57 {
            proof {
                assert(!is_digit(digits[index - start]));
            }
            return None;
        }
        let next: u64 = number * 10 + (code - 48) as u64;
        if next > 0xffff_ffff {
            proof {
                if all_digits(digits) {
                    prefix_value_is_smaller(digits, index - start + 1);
                }
            }
            return None;
        }
        number = next;
        index = index + 1;
    }
    proof {
        assert(digits.take(digits.len() as int) =~= digits);
    }
    Some(number as u32)
}

/// Tells whether a number field accepts a text: digits and nothing else, and a number that can
/// be read.
pub fn number_is_accepted(value: &str) -> (accepted: bool)
    ensures
        accepted == ((forall|i: int| 0 <= i < value@.len() ==> is_digit(#[trigger] value@[i]))
            && parsed_u32(value@) is Some),
{
    let chars = characters(value);
    let mut index: usize = 0;
    while index < chars.len()
        invariant
            index <= chars.len(),
            chars@ == value@,
            forall|i: int| 0 <= i < index ==> is_digit(#[trigger] value@[i]),
        decreases chars.len() - index,
    {
        let code: u32 = chars[index] as u32;
        if code < 48 || code > 57 {
            proof {
                assert(!is_digit(value@[index as int]));
            }
            return false;
        }
        index = index + 1;
    }
    parse_u32(value).is_some()
}

/// The digit for a number below ten.
pub open spec fn digit_char(value: nat) -> char {
    (value + '0' as u32) as char
}

/// A number in decimal digits, without leading zeros.
pub open spec fn decimal_text(value: nat) -> Seq<char>
    decreases value,
{
    if value < 10 {
        seq![digit_char(value)]
    } else {
        decimal_text(value / 10).push(digit_char(value % 10))
    }
}

fn digit_text(value: u64) -> (text: String)
    requires
        value < 10,
    ensures
        text@ == seq![digit_char(value as nat)],
{
    proof {
        reveal_strlit("0");
        reveal_strlit("1");
        reveal_strlit("2");
        reveal_strlit("3");
        reveal_strlit("4");
        reveal_strlit("5");
        reveal_strlit("6");
        reveal_strlit("7");
        reveal_strlit("8");
        reveal_strlit("9");
    }
    let digit = if value == 0 {
        "0"
    } else if value == 1 {
        "1"
    } else if value == 2 {
        "2"
    } else if value == 3 {
        "3"
    } else if value == 4 {
        "4"
    } else if value == 5 {
        "5"
    } else if value == 6 {
        "6"
    } else if value == 7 {
        "7"
    } else if value == 8 {
        "8"
    } else {
        "9"
    };
    proof {
        assert(digit@ =~= seq![digit_char(value as nat)]);
    }
    digit.to_owned()
}

/// Writes a number in decimal digits.
pub fn decimal(value: u64) -> (text: String)
    ensures
        text@ == decimal_text(value as nat),
    decreases value,
{
    if value < 10 {
        return digit_text(value);
    }
    let mut text = decimal(value / 10);
    let last = digit_text(value % 10);
    text.append(last.as_str());
    proof {
        assert(text@ =~= decimal_text(value as nat));
    }
    text
}

proof fn decimal_is_digits(value: nat)
    ensures
        all_digits(decimal_text(value)),
        digits_value(decimal_text(value)) == value,
    decreases value,
{
    let text = decimal_text(value);
    if value < 10 {
        assert(text.drop_last() =~= Seq::<char>::empty());
        assert(digits_value(text.drop_last()) == 0);
        assert(text.last() == digit_char(value));
    } else {
        decimal_is_digits(value / 10);
        let front = decimal_text(value / 10);
        assert(text.drop_last() =~= front);
        assert(text.last() == digit_char(value % 10));
        assert forall|i: int| 0 <= i < text.len() implies is_digit(#[trigger] text[i]) by {
            if i < front.len() {
                assert(text[i] == front[i]);
            }
        }
    }
}

proof fn digits_are_trimmed(text: Seq<char>)
    requires
        all_digits(text),
    ensures
        without_plus(trimmed(text)) == text,
{
    assert(is_digit(text[0]));
    assert(is_digit(text.last()));
    assert(trimmed_start(text) == text);
    assert(trimmed_end(text) == text);
}

/// A number that is shown in a field is read back from it.
pub proof fn shown_number_is_read_back(value: u32)
    ensures
        parsed_u32(decimal_text(value as nat)) == Some(value),
{
    decimal_is_digits(value as nat);
    digits_are_trimmed(decimal_text(value as nat));
}

/// Different numbers are shown differently.
pub proof fn decimal_is_injective(left: nat, right: nat)
    requires
        decimal_text(left) == decimal_text(right),
    ensures
        left == right,
{
    decimal_is_digits(left);
    decimal_is_digits(right);
}

} // verus!

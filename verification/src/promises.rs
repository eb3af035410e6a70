//! What the basic notions mean, told in terms of the texts and numbers they are about.

use vstd::prelude::*;

use crate::fresh_id::{is_fresh_id, is_first_free, numbered, text_views};
use crate::id_set::TextSet;
use crate::number_text::{
    all_digits, decimal_text, digit_char, digit_value, digits_value, is_digit, is_white_space,
    parsed_u32, trimmed, trimmed_end, trimmed_start, without_plus,
};
use crate::path::{component, components_from, path_view, spell_same_optional_path, spell_same_path};
use crate::revision::revision_after;
use crate::text::{ends_with, optional_view};

verus! {

/// An optional text is seen as it is.
pub proof fn optional_text_is_seen_as_it_is(text: Option<String>)
    ensures
        text matches Some(value) ==> optional_view(text) == Some(value@),
        text is None ==> optional_view(text) is None,
{
}

/// Texts are seen one by one in their order.
pub proof fn texts_are_seen_as_they_are(texts: Seq<String>)
    ensures
        text_views(texts).len() == texts.len(),
        forall|i: int| 0 <= i < texts.len() ==> #[trigger] text_views(texts)[i] == texts[i]@,
{
}

/// A set of texts holds what is in it, and nothing else.
pub proof fn text_set_holds_its_texts(set: TextSet, text: Seq<char>)
    ensures
        set@.contains(text) <==> exists|i: int|
            0 <= i < set.items@.len() && #[trigger] set.items@[i]@ == text,
{
    let seen = text_views(set.items@);
    if set@.contains(text) {
        let at = choose|i: int| 0 <= i < seen.len() && seen[i] == text;
        assert(set.items@[at]@ == text);
    }
    if exists|i: int| 0 <= i < set.items@.len() && #[trigger] set.items@[i]@ == text {
        let at = choose|i: int| 0 <= i < set.items@.len() && #[trigger] set.items@[i]@ == text;
        assert(seen[at] == text);
        assert(seen.contains(text));
    }
}

/// A text ends with what was put at its end, and with nothing else.
pub proof fn ending_is_at_the_end(front: Seq<char>, suffix: Seq<char>, text: Seq<char>)
    ensures
        ends_with(front + suffix, suffix),
        ends_with(text, suffix) ==> suffix.len() <= text.len() && text == text.take(
            text.len() - suffix.len(),
        ) + suffix,
{
    assert((front + suffix).skip((front + suffix).len() - suffix.len()) =~= suffix);
    if ends_with(text, suffix) {
        assert(text =~= text.take(text.len() - suffix.len()) + text.skip(
            text.len() - suffix.len(),
        ));
    }
}

/// Whether a text is white space all through.
pub open spec fn is_blank(text: Seq<char>) -> bool {
    forall|i: int| 0 <= i < text.len() ==> is_white_space(#[trigger] text[i])
}

/// Whether a text begins and ends with something to see.
pub open spec fn is_bare(text: Seq<char>) -> bool {
    text.len() > 0 ==> !is_white_space(text[0]) && !is_white_space(text.last())
}

proof fn start_is_trimmed(space: Seq<char>, rest: Seq<char>)
    requires
        is_blank(space),
        rest.len() > 0 ==> !is_white_space(rest[0]),
    ensures
        trimmed_start(space + rest) == rest,
    decreases space.len(),
{
    let whole = space + rest;
    if space.len() == 0 {
        assert(whole =~= rest);
    } else {
        assert(whole[0] == space[0]);
        assert(whole.drop_first() =~= space.drop_first() + rest);
        start_is_trimmed(space.drop_first(), rest);
    }
}

proof fn end_is_trimmed(rest: Seq<char>, space: Seq<char>)
    requires
        is_blank(space),
        rest.len() > 0 ==> !is_white_space(rest.last()),
    ensures
        trimmed_end(rest + space) == rest,
    decreases space.len(),
{
    let whole = rest + space;
    if space.len() == 0 {
        assert(whole =~= rest);
    } else {
        assert(whole.last() == space.last());
        assert(whole.drop_last() =~= rest + space.drop_last());
        end_is_trimmed(rest, space.drop_last());
    }
}

/// Trimming takes the white space around a text, and nothing else.
pub proof fn only_surrounding_space_is_trimmed(before: Seq<char>, text: Seq<char>, after: Seq<char>)
    requires
        is_blank(before),
        is_bare(text),
        is_blank(after),
    ensures
        trimmed(before + text + after) == text,
{
    if text.len() > 0 {
        start_is_trimmed(before, text + after);
        assert(before + text + after =~= before + (text + after));
        end_is_trimmed(text, after);
    } else {
        start_is_trimmed(before + after, text);
        assert(before + text + after =~= (before + after) + text);
    }
}

/// White space is what Unicode counts as such.
pub proof fn white_space_is_that_of_unicode(c: char)
    ensures
        is_white_space(c) <==> {
            ||| c == ' '
            ||| c == '\t'
            ||| c == '\n'
            ||| c == '\r'
            ||| c as u32 == 0xb
            ||| c as u32 == 0xc
            ||| c as u32 == 0x85
            ||| c as u32 == 0xa0
            ||| c as u32 == 0x1680
            ||| 0x2000 <= c as u32 <= 0x200a
            ||| c as u32 == 0x2028
            ||| c as u32 == 0x2029
            ||| c as u32 == 0x202f
            ||| c as u32 == 0x205f
            ||| c as u32 == 0x3000
        },
{
}

/// The ten digits stand for the first ten numbers.
pub proof fn digits_stand_for_numbers(c: char)
    ensures
        digit_char(0) == '0' && digit_char(1) == '1' && digit_char(2) == '2' && digit_char(3)
            == '3' && digit_char(4) == '4' && digit_char(5) == '5' && digit_char(6) == '6'
            && digit_char(7) == '7' && digit_char(8) == '8' && digit_char(9) == '9',
        is_digit(c) <==> c == '0' || c == '1' || c == '2' || c == '3' || c == '4' || c == '5' || c
            == '6' || c == '7' || c == '8' || c == '9',
        is_digit(c) ==> digit_value(c) <= 9 && digit_char(digit_value(c)) == c,
{
}

/// A number is written in decimal, most significant digit first.
pub proof fn numbers_are_written_in_decimal(tens: nat, ones: nat)
    requires
        ones < 10,
    ensures
        decimal_text(ones) == seq![digit_char(ones)],
        tens > 0 ==> decimal_text(tens * 10 + ones) == decimal_text(tens).push(digit_char(ones)),
{
}

/// A row of digits is read in decimal, with white space around it or a plus before it.
pub proof fn numbers_are_read_in_decimal(
    before: Seq<char>,
    digits: Seq<char>,
    after: Seq<char>,
    ones: char,
)
    requires
        is_blank(before),
        is_blank(after),
        all_digits(digits),
        is_digit(ones),
    ensures
        digits_value(seq![ones]) == digit_value(ones),
        digits_value(digits.push(ones)) == digits_value(digits) * 10 + digit_value(ones),
        digits_value(digits) <= u32::MAX ==> parsed_u32(before + digits + after) == Some(
            digits_value(digits) as u32,
        ),
        digits_value(digits) <= u32::MAX ==> parsed_u32(before + (seq!['+'] + digits) + after)
            == Some(digits_value(digits) as u32),
        digits_value(digits) > u32::MAX ==> parsed_u32(before + digits + after) is None,
{
    assert(seq![ones].drop_last() =~= Seq::<char>::empty());
    assert(digits_value(seq![ones].drop_last()) == 0);
    assert(digits.push(ones).drop_last() =~= digits);
    assert(is_digit(digits[0]) && is_digit(digits.last()));
    only_surrounding_space_is_trimmed(before, digits, after);
    let signed = seq!['+'] + digits;
    assert(signed.last() == digits.last());
    only_surrounding_space_is_trimmed(before, signed, after);
    assert(signed.drop_first() =~= digits);
    assert(without_plus(digits) == digits);
}

/// What holds anything but digits after an optional plus is no number.
pub proof fn only_digits_are_numbers(before: Seq<char>, text: Seq<char>, after: Seq<char>, at: int)
    requires
        is_blank(before),
        is_bare(text),
        is_blank(after),
        0 <= at < text.len(),
        !is_digit(text[at]),
        at > 0 || text[0] != '+' || text.len() == 1,
    ensures
        parsed_u32(before + text + after) is None,
{
    only_surrounding_space_is_trimmed(before, text, after);
    let digits = without_plus(text);
    if text[0] == '+' && text.len() > 1 {
        assert(digits[at - 1] == text[at]);
    } else if text[0] == '+' {
        assert(digits.len() == 0);
    } else {
        assert(digits[at] == text[at]);
    }
}

/// An empty field holds no number.
pub proof fn blank_is_no_number(text: Seq<char>)
    requires
        is_blank(text),
    ensures
        parsed_u32(text) is None,
        trimmed(text).len() == 0,
{
    only_surrounding_space_is_trimmed(text, Seq::empty(), Seq::empty());
    assert(text + Seq::<char>::empty() + Seq::<char>::empty() =~= text);
}

/// A new identifier is the prefix with the smallest number from one on that is not taken.
pub proof fn fresh_id_has_the_smallest_number(
    prefix: Seq<char>,
    taken: Seq<Seq<char>>,
    id: Seq<char>,
)
    requires
        is_fresh_id(prefix, taken, id),
    ensures
        !taken.contains(id),
        exists|number: nat|
            {
                &&& number >= 1
                &&& id == prefix + #[trigger] decimal_text(number)
                &&& forall|smaller: nat|
                    1 <= smaller < number ==> taken.contains(
                        prefix + #[trigger] decimal_text(smaller),
                    )
            },
{
    let number = choose|number: nat| #[trigger]
        is_first_free(prefix, taken, number) && id == numbered(prefix, number);
    assert(id == prefix + decimal_text(number));
    assert forall|smaller: nat| 1 <= smaller < number implies taken.contains(
        prefix + #[trigger] decimal_text(smaller),
    ) by {
        assert(taken.contains(numbered(prefix, smaller)));
    }
}

/// Revisions go up by one, and around to one.
pub proof fn revisions_go_up_by_one(current: u64)
    ensures
        current < u64::MAX ==> revision_after(current) == current + 1,
        revision_after(u64::MAX) == 1,
{
}

/// Two paths are the same if both or neither start at the root and their names are the same.
pub proof fn same_path_is_same_names(left: Seq<char>, right: Seq<char>)
    ensures
        spell_same_path(left, right) <==> path_view(left).rooted == path_view(right).rooted
            && path_view(left).names == path_view(right).names,
        path_view(left).rooted <==> left.len() > 0 && left[0] == '/',
        spell_same_optional_path(Some(left), Some(right)) == spell_same_path(left, right),
        spell_same_optional_path(None, None),
        !spell_same_optional_path(Some(left), None),
        !spell_same_optional_path(None, Some(right)),
{
}

proof fn last_name_is_one(text: Seq<char>, start: int, at: int)
    requires
        0 <= start <= at <= text.len(),
        forall|i: int| at <= i < text.len() ==> #[trigger] text[i] != '/',
    ensures
        components_from(text, start, at) == component(text, start, text.len() as int),
    decreases text.len() - at,
{
    if at < text.len() {
        last_name_is_one(text, start, at + 1);
    }
}

proof fn name_follows(text: Seq<char>, name: Seq<char>, start: int, at: int)
    requires
        0 <= start <= at <= text.len(),
        forall|i: int| 0 <= i < name.len() ==> #[trigger] name[i] != '/',
    ensures
        components_from(text + seq!['/'] + name, start, at) == components_from(text, start, at)
            + component(
            text + seq!['/'] + name,
            text.len() as int + 1,
            (text + seq!['/'] + name).len() as int,
        ),
    decreases text.len() - at,
{
    let whole = text + seq!['/'] + name;
    let tail = component(whole, text.len() as int + 1, whole.len() as int);
    assert(whole.subrange(start, at) =~= text.subrange(start, at));
    if at == text.len() {
        assert forall|i: int| at + 1 <= i < whole.len() implies #[trigger] whole[i] != '/' by {
            assert(whole[i] == name[i - at - 1]);
        }
        last_name_is_one(whole, at + 1, at + 1);
        assert(whole[at] == '/');
    } else if text[at] == '/' {
        assert(whole[at] == '/');
        name_follows(text, name, at + 1, at + 1);
        assert(component(text, start, at) + (components_from(text, at + 1, at + 1) + tail) =~= (
        component(text, start, at) + components_from(text, at + 1, at + 1)) + tail);
    } else {
        assert(whole[at] == text[at]);
        name_follows(text, name, start, at + 1);
    }
}

/// A path is read name by name: a name without a separator stands for itself, one after a
/// separator comes after what was before, and a dot there, or nothing, adds nothing.
pub proof fn path_is_read_name_by_name(text: Seq<char>, name: Seq<char>)
    requires
        forall|i: int| 0 <= i < name.len() ==> #[trigger] name[i] != '/',
    ensures
        name.len() > 0 ==> path_view(name).names == seq![name],
        path_view(Seq::empty()).names.len() == 0,
        name.len() > 0 && name != seq!['.'] ==> path_view(text + seq!['/'] + name).names
            == path_view(text).names.push(name),
        name.len() == 0 || name == seq!['.'] ==> path_view(text + seq!['/'] + name).names
            == path_view(text).names,
        text.len() > 0 ==> path_view(text + seq!['/'] + name).rooted == path_view(text).rooted,
        path_view(seq!['/'] + name).rooted,
        !path_view(name).rooted,
{
    last_name_is_one(name, 0, 0);
    assert(name.subrange(0, name.len() as int) =~= name);
    name_follows(text, name, 0, 0);
    let whole = text + seq!['/'] + name;
    assert(whole.subrange(text.len() as int + 1, whole.len() as int) =~= name);
    assert(path_view(text).names + seq![name] =~= path_view(text).names.push(name));
    assert(path_view(text).names + Seq::empty() =~= path_view(text).names);
    assert((seq!['/'] + name)[0] == '/');
    if text.len() > 0 {
        assert(whole[0] == text[0]);
    }
}

} // verus!

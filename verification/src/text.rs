//! Text helpers: equality and copies that contracts can follow.

use vstd::prelude::*;

verus! {

/// The view of an optional text.
pub open spec fn optional_view(text: Option<String>) -> Option<Seq<char>> {
    match text {
        Some(value) => Some(value@),
        None => None,
    }
}

/// Copies an optional text.
pub fn clone_optional(text: &Option<String>) -> (copy: Option<String>)
    ensures
        copy == *text,
{
    match text {
        Some(value) => Some(value.clone()),
        None => None,
    }
}

/// Whether two optional texts are both missing or hold the same characters.
pub fn same_optional(left: &Option<String>, right: &Option<String>) -> (same: bool)
    ensures
        same == (optional_view(*left) == optional_view(*right)),
{
    match (left, right) {
        (Some(left), Some(right)) => *left == *right,
        (None, None) => true,
        _ => false,
    }
}

/// Whether `text` ends with `suffix`.
pub open spec fn ends_with(text: Seq<char>, suffix: Seq<char>) -> bool {
    &&& suffix.len() <= text.len()
    &&& text.skip(text.len() - suffix.len()) == suffix
}

/// Returns `text` without `suffix`, or nothing where it does not end with it.
pub fn strip_suffix(text: &str, suffix: &str) -> (rest: Option<String>)
    ensures
        match rest {
            Some(rest) => ends_with(text@, suffix@) && rest@ == text@.take(
                text@.len() - suffix@.len(),
            ),
            None => !ends_with(text@, suffix@),
        },
{
    let length: usize = text.unicode_len();
    let suffix_length: usize = suffix.unicode_len();
    if suffix_length > length {
        return None;
    }
    let start: usize = length - suffix_length;
    let tail = text.substring_char(start, length).to_owned();
    proof {
        assert(tail@ == text@.skip(text@.len() - suffix@.len()));
    }
    if tail == suffix.to_owned() {
        let rest = text.substring_char(0, start).to_owned();
        proof {
            assert(rest@ == text@.take(text@.len() - suffix@.len()));
        }
        Some(rest)
    } else {
        None
    }
}

} // verus!

//! Paths of files, held as texts and compared by their components, as on Unix.

use vstd::prelude::*;

use crate::fresh_id::{same_texts, text_views};
use crate::text::optional_view;

verus! {

/// What a path consists of: whether it begins at the root, and its names in order.
#[verifier::ext_equal]
pub struct PathView {
    pub rooted: bool,
    pub names: Seq<Seq<char>>,
}

/// Whether what stands between two separators, from `start` on, is a component of a path. An
/// empty name is none, and neither is the one for the place itself, unless the path begins
/// with it.
pub open spec fn is_component(name: Seq<char>, start: int) -> bool {
    name.len() > 0 && (name != seq!['.'] || start == 0)
}

/// The name from `start` to `end`, if it is a component.
pub open spec fn component(text: Seq<char>, start: int, end: int) -> Seq<Seq<char>> {
    let name = text.subrange(start, end);
    if is_component(name, start) {
        seq![name]
    } else {
        Seq::empty()
    }
}

/// The components from `start` on, where no separator stands before `at`.
pub open spec fn components_from(text: Seq<char>, start: int, at: int) -> Seq<Seq<char>>
    decreases text.len() - at,
{
    if at >= text.len() {
        component(text, start, text.len() as int)
    } else if text[at] == '/' {
        component(text, start, at) + components_from(text, at + 1, at + 1)
    } else {
        components_from(text, start, at + 1)
    }
}

/// What the path that a text spells consists of.
pub open spec fn path_view(text: Seq<char>) -> PathView {
    PathView {
        rooted: text.len() > 0 && text[0] == '/',
        names: components_from(text, 0, 0),
    }
}

/// Whether two texts spell the same path. Repeated separators, one at the end and names for
/// the place itself make no difference, except that a path may begin with such a name.
pub open spec fn spell_same_path(left: Seq<char>, right: Seq<char>) -> bool {
    path_view(left) == path_view(right)
}

/// Whether two paths are both missing or spell the same path.
pub open spec fn spell_same_optional_path(left: Option<Seq<char>>, right: Option<Seq<char>>) -> bool {
    match (left, right) {
        (Some(left), Some(right)) => spell_same_path(left, right),
        (None, None) => true,
        _ => false,
    }
}

fn push_component(names: &mut Vec<String>, text: &str, start: usize, end: usize)
    requires
        start <= end <= text@.len(),
    ensures
        text_views(final(names)@) == text_views(old(names)@) + component(
            text@,
            start as int,
            end as int,
        ),
{
    let ghost name = text@.subrange(start as int, end as int);
    let ghost before = text_views(names@);
    if start == end || (start > 0 && end - start == 1 && text.get_char(start) == '.') {
        proof {
            if start < end {
                assert(name =~= seq!['.']);
            }
            assert(before + Seq::empty() =~= before);
        }
        return ;
    }
    proof {
        if start > 0 && end - start == 1 {
            assert(name[0] == text@[start as int]);
            assert(name != seq!['.']) by {
                assert(seq!['.'][0] == '.');
            }
        }
        if end - start != 1 {
            assert(name.len() != seq!['.'].len());
        }
    }
    names.push(text.substring_char(start, end).to_owned());
    proof {
        assert(text_views(names@) =~= before + seq![name]);
    }
}

fn path_names(text: &str) -> (names: Vec<String>)
    ensures
        text_views(names@) == path_view(text@).names,
{
    let length: usize = text.unicode_len();
    let mut names: Vec<String> = Vec::new();
    let mut start: usize = 0;
    let mut at: usize = 0;
    proof {
        assert(text_views(names@) + components_from(text@, 0, 0) =~= components_from(text@, 0, 0));
    }
    while at < length
        invariant
            start <= at <= length == text@.len(),
            text_views(names@) + components_from(text@, start as int, at as int) == path_view(
                text@,
            ).names,
        decreases length - at,
    {
        if text.get_char(at) == '/' {
            let ghost before = text_views(names@);
            push_component(&mut names, text, start, at);
            proof {
                assert(before + (component(text@, start as int, at as int) + components_from(
                    text@,
                    at + 1,
                    at + 1,
                )) =~= text_views(names@) + components_from(text@, at + 1, at + 1));
            }
            start = at + 1;
        }
        at = at + 1;
    }
    push_component(&mut names, text, start, length);
    names
}

fn is_rooted(text: &str) -> (rooted: bool)
    ensures
        rooted == path_view(text@).rooted,
{
    text.unicode_len() > 0 && text.get_char(0) == '/'
}

/// Tells whether two texts spell the same path.
pub fn same_path(left: &str, right: &str) -> (same: bool)
    ensures
        same == spell_same_path(left@, right@),
{
    let left_names = path_names(left);
    let right_names = path_names(right);
    is_rooted(left) == is_rooted(right) && same_texts(&left_names, &right_names)
}

/// Tells whether two paths are both missing or the same.
pub fn same_optional_path(left: &Option<String>, right: &Option<String>) -> (same: bool)
    ensures
        same == spell_same_optional_path(optional_view(*left), optional_view(*right)),
{
    match (left, right) {
        (Some(left), Some(right)) => same_path(left.as_str(), right.as_str()),
        (None, None) => true,
        _ => false,
    }
}

/// To spell the same path is an equivalence.
pub proof fn path_spelling_is_equivalence(left: Seq<char>, middle: Seq<char>, right: Seq<char>)
    ensures
        spell_same_path(left, left),
        spell_same_path(left, middle) == spell_same_path(middle, left),
        spell_same_path(left, middle) && spell_same_path(middle, right) ==> spell_same_path(
            left,
            right,
        ),
{
}

/// A separator after a path that is not empty makes no difference.
pub proof fn separator_at_end_is_ignored(text: Seq<char>)
    requires
        text.len() > 0,
    ensures
        spell_same_path(text.push('/'), text),
{
    separator_at_end_adds_nothing(text, 0, 0);
    assert(path_view(text.push('/')) =~= path_view(text));
}

proof fn separator_at_end_adds_nothing(text: Seq<char>, start: int, at: int)
    requires
        0 <= start <= at <= text.len(),
        text.len() > 0,
    ensures
        components_from(text.push('/'), start, at) == components_from(text, start, at),
    decreases text.len() - at,
{
    let longer = text.push('/');
    if at == text.len() {
        assert(longer.subrange(start, at) =~= text.subrange(start, at));
        assert(components_from(longer, at + 1, at + 1) == component(longer, at + 1, at + 1));
        assert(component(longer, at + 1, at + 1) =~= Seq::empty());
        assert(components_from(longer, start, at) =~= component(longer, start, at));
    } else if text[at] == '/' {
        assert(longer.subrange(start, at) =~= text.subrange(start, at));
        separator_at_end_adds_nothing(text, at + 1, at + 1);
    } else {
        separator_at_end_adds_nothing(text, start, at + 1);
    }
}

} // verus!

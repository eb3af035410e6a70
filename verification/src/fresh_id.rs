//! Identifiers for new entries: a prefix and the smallest number that is free.

use vstd::prelude::*;

use crate::number_text::{decimal, decimal_is_injective, decimal_text};

verus! {

/// The texts behind a list of strings.
pub open spec fn text_views(texts: Seq<String>) -> Seq<Seq<char>> {
    Seq::new(texts.len(), |i: int| texts[i]@)
}

/// Tells whether two lists hold the same texts in the same order.
pub fn same_texts(left: &Vec<String>, right: &Vec<String>) -> (same: bool)
    ensures
        same == (text_views(left@) == text_views(right@)),
{
    if left.len() != right.len() {
        proof {
            assert(text_views(left@).len() != text_views(right@).len());
        }
        return false;
    }
    let mut index: usize = 0;
    while index < left.len()
        invariant
            index <= left.len() == right.len(),
            forall|i: int| 0 <= i < index ==> text_views(left@)[i] == text_views(right@)[i],
        decreases left.len() - index,
    {
        if left[index] != right[index] {
            proof {
                assert(text_views(left@)[index as int] != text_views(right@)[index as int]);
            }
            return false;
        }
        index = index + 1;
    }
    proof {
        assert(text_views(left@) =~= text_views(right@));
    }
    true
}

/// The identifier with the given number.
pub open spec fn numbered(prefix: Seq<char>, number: nat) -> Seq<char> {
    prefix + decimal_text(number)
}

/// Whether `number` is the smallest one, from one on, whose identifier is free.
pub open spec fn is_first_free(prefix: Seq<char>, taken: Seq<Seq<char>>, number: nat) -> bool {
    &&& number >= 1
    &&& !taken.contains(numbered(prefix, number))
    &&& forall|smaller: nat|
        1 <= smaller < number ==> taken.contains(#[trigger] numbered(prefix, smaller))
}

/// Whether `id` is the identifier that a new entry gets.
pub open spec fn is_fresh_id(prefix: Seq<char>, taken: Seq<Seq<char>>, id: Seq<char>) -> bool {
    exists|number: nat| #[trigger] is_first_free(prefix, taken, number) && id == numbered(
        prefix,
        number,
    )
}

/// Tells whether `text` is among `texts`.
pub fn contains_text(texts: &Vec<String>, text: &String) -> (found: bool)
    ensures
        found == text_views(texts@).contains(text@),
{
    let mut index: usize = 0;
    while index < texts.len()
        invariant
            index <= texts.len(),
            forall|i: int| 0 <= i < index ==> text_views(texts@)[i] != text@,
        decreases texts.len() - index,
    {
        if texts[index] == *text {
            proof {
                assert(text_views(texts@)[index as int] == text@);
            }
            return true;
        }
        index = index + 1;
    }
    false
}

proof fn numbered_is_injective(prefix: Seq<char>, left: nat, right: nat)
    requires
        numbered(prefix, left) == numbered(prefix, right),
    ensures
        left == right,
{
    let whole = numbered(prefix, left);
    assert(whole.skip(prefix.len() as int) =~= decimal_text(left));
    assert(whole.skip(prefix.len() as int) =~= decimal_text(right));
    decimal_is_injective(left, right);
}

/// The identifiers with the numbers from one up to `count`.
spec fn first_ids(prefix: Seq<char>, count: nat) -> Set<Seq<char>>
    decreases count,
{
    if count == 0 {
        Set::empty()
    } else {
        first_ids(prefix, (count - 1) as nat).insert(numbered(prefix, count))
    }
}

proof fn first_ids_are_distinct(prefix: Seq<char>, count: nat)
    ensures
        first_ids(prefix, count).finite(),
        first_ids(prefix, count).len() == count,
        forall|id: Seq<char>| #[trigger]
            first_ids(prefix, count).contains(id) ==> exists|number: nat|
                1 <= number <= count && id == #[trigger] numbered(prefix, number),
    decreases count,
{
    if count > 0 {
        let fewer = (count - 1) as nat;
        first_ids_are_distinct(prefix, fewer);
        if first_ids(prefix, fewer).contains(numbered(prefix, count)) {
            let number = choose|number: nat|
                1 <= number <= fewer && numbered(prefix, count) == #[trigger] numbered(
                    prefix,
                    number,
                );
            numbered_is_injective(prefix, count, number);
        }
        assert forall|id: Seq<char>| #[trigger]
            first_ids(prefix, count).contains(id) implies exists|number: nat|
            1 <= number <= count && id == #[trigger] numbered(prefix, number) by {
            if id != numbered(prefix, count) {
                assert(first_ids(prefix, fewer).contains(id));
            }
        }
    }
}

/// There are never more taken numbers in a row than taken identifiers.
proof fn taken_numbers_are_bounded(prefix: Seq<char>, taken: Seq<Seq<char>>, count: nat)
    requires
        forall|number: nat|
            1 <= number <= count ==> taken.contains(#[trigger] numbered(prefix, number)),
    ensures
        count <= taken.len(),
{
    first_ids_are_distinct(prefix, count);
    taken.lemma_cardinality_of_set();
    let ids = first_ids(prefix, count);
    assert forall|id: Seq<char>| #[trigger] ids.contains(id) implies taken.to_set().contains(id) by {
        let number = choose|number: nat|
            1 <= number <= count && id == #[trigger] numbered(prefix, number);
        assert(taken.contains(numbered(prefix, number)));
    }
    vstd::set_lib::lemma_len_subset(ids, taken.to_set());
}

/// Returns the identifier that a new entry gets.
pub fn fresh_id(prefix: &str, taken: &Vec<String>) -> (id: String)
    requires
        taken@.len() < usize::MAX,
    ensures
        is_fresh_id(prefix@, text_views(taken@), id@),
{
    let mut number: u64 = 1;
    loop
        invariant
            1 <= number <= taken@.len() + 1,
            taken@.len() < usize::MAX,
            forall|smaller: nat|
                1 <= smaller < number ==> text_views(taken@).contains(
                    #[trigger] numbered(prefix@, smaller),
                ),
        decreases taken@.len() + 1 - number,
    {
        let mut id = prefix.to_owned();
        let digits = decimal(number);
        id.append(digits.as_str());
        proof {
            assert(id@ == numbered(prefix@, number as nat));
        }
        if !contains_text(taken, &id) {
            proof {
                assert(is_first_free(prefix@, text_views(taken@), number as nat));
            }
            return id;
        }
        proof {
            taken_numbers_are_bounded(prefix@, text_views(taken@), number as nat);
        }
        number = number + 1;
    }
}

/// An identifier for a new entry is none of those in use.
pub proof fn fresh_id_is_unused(prefix: Seq<char>, taken: Seq<Seq<char>>, id: Seq<char>)
    requires
        is_fresh_id(prefix, taken, id),
    ensures
        !taken.contains(id),
{
}

/// Which identifier a new entry gets is fixed by the prefix and those in use.
pub proof fn fresh_id_is_determined(
    prefix: Seq<char>,
    taken: Seq<Seq<char>>,
    left: Seq<char>,
    right: Seq<char>,
)
    requires
        is_fresh_id(prefix, taken, left),
        is_fresh_id(prefix, taken, right),
    ensures
        left == right,
{
    let first = choose|number: nat| #[trigger]
        is_first_free(prefix, taken, number) && left == numbered(prefix, number);
    let second = choose|number: nat| #[trigger]
        is_first_free(prefix, taken, number) && right == numbered(prefix, number);
    if first < second {
        assert(taken.contains(numbered(prefix, first)));
    } else if second < first {
        assert(taken.contains(numbered(prefix, second)));
    }
}

} // verus!

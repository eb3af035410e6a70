//! Small sets that remember nothing but what is in them.

use vstd::prelude::*;

use crate::fresh_id::{contains_text, text_views};

verus! {

/// A set of message numbers. No number is listed twice, so that the length of the list counts
/// the set.
#[derive(Debug)]
pub struct IdSet {
    items: Vec<u64>,
}

impl View for IdSet {
    type V = Set<u64>;

    closed spec fn view(&self) -> Set<u64> {
        self.items@.to_set()
    }
}

impl IdSet {
    #[verifier::type_invariant]
    spec fn lists_once(self) -> bool {
        self.items@.no_duplicates()
    }

    /// The empty set.
    pub fn new() -> (set: Self)
        ensures
            set@ == Set::<u64>::empty(),
    {
        let items: Vec<u64> = Vec::new();
        proof {
            assert(items@.to_set() =~= Set::<u64>::empty());
        }
        IdSet { items }
    }

    /// Tells whether `id` is in the set.
    pub fn contains(&self, id: u64) -> (found: bool)
        ensures
            found == self@.contains(id),
    {
        let mut index: usize = 0;
        while index < self.items.len()
            invariant
                index <= self.items.len(),
                forall|i: int| 0 <= i < index ==> self.items@[i] != id,
            decreases self.items.len() - index,
        {
            if self.items[index] == id {
                return true;
            }
            index = index + 1;
        }
        false
    }

    /// Puts `id` into the set and tells whether it is new there.
    pub fn insert(&mut self, id: u64) -> (added: bool)
        ensures
            added == !old(self)@.contains(id),
            final(self)@ == old(self)@.insert(id),
    {
        proof {
            use_type_invariant(&*self);
        }
        if self.contains(id) {
            proof {
                assert(self@.insert(id) =~= self@);
            }
            return false;
        }
        let mut items: Vec<u64> = Vec::new();
        std::mem::swap(&mut items, &mut self.items);
        items.push(id);
        proof {
            old(self).items@.lemma_push_to_set_commute(id);
        }
        self.items = items;
        true
    }

    /// Takes `id` out of the set.
    pub fn remove(&mut self, id: u64)
        ensures
            final(self)@ == old(self)@.remove(id),
    {
        let mut kept = IdSet::new();
        let mut index: usize = 0;
        while index < self.items.len()
            invariant
                index <= self.items.len(),
                *self == *old(self),
                kept@ == self.items@.take(index as int).to_set().remove(id),
            decreases self.items.len() - index,
        {
            let item: u64 = self.items[index];
            let ghost before = self.items@.take(index as int);
            proof {
                assert(self.items@.take(index + 1) =~= before.push(item));
                before.lemma_push_to_set_commute(item);
            }
            if item != id {
                kept.insert(item);
            }
            proof {
                assert(kept@ =~= self.items@.take(index + 1).to_set().remove(id));
            }
            index = index + 1;
        }
        proof {
            assert(self.items@.take(self.items@.len() as int) =~= self.items@);
        }
        *self = kept;
    }

    /// Takes every one of `ids` out of the set.
    pub fn remove_all(&mut self, ids: &Vec<u64>)
        ensures
            final(self)@ == old(self)@.difference(ids@.to_set()),
    {
        let mut index: usize = 0;
        proof {
            assert(ids@.take(0).to_set() =~= Set::<u64>::empty());
            assert(self@.difference(ids@.take(0).to_set()) =~= self@);
        }
        while index < ids.len()
            invariant
                index <= ids.len(),
                self@ == old(self)@.difference(ids@.take(index as int).to_set()),
            decreases ids.len() - index,
        {
            let id: u64 = ids[index];
            self.remove(id);
            proof {
                assert(ids@.take(index + 1) =~= ids@.take(index as int).push(id));
                ids@.take(index as int).lemma_push_to_set_commute(id);
                assert(self@ =~= old(self)@.difference(ids@.take(index + 1).to_set()));
            }
            index = index + 1;
        }
        proof {
            assert(ids@.take(ids@.len() as int) =~= ids@);
        }
    }

    /// Tells whether nothing is in the set.
    pub fn is_empty(&self) -> (empty: bool)
        ensures
            empty == (self@ == Set::<u64>::empty()),
    {
        let empty = self.items.len() == 0;
        proof {
            if empty {
                assert(self@ =~= Set::<u64>::empty());
            } else {
                assert(self@.contains(self.items@[0]));
            }
        }
        empty
    }

    /// Counts what is in the set.
    pub fn len(&self) -> (count: usize)
        ensures
            count == self@.len(),
    {
        proof {
            use_type_invariant(self);
            self.items@.unique_seq_to_set();
        }
        self.items.len()
    }

    /// Copies the set.
    pub fn copy(&self) -> (copy: Self)
        ensures
            copy@ == self@,
    {
        let mut copy = IdSet::new();
        copy.extend(&self.items);
        proof {
            assert(Set::<u64>::empty().union(self@) =~= self@);
        }
        copy
    }

    /// Puts every one of `ids` into the set.
    pub fn extend(&mut self, ids: &Vec<u64>)
        ensures
            final(self)@ == old(self)@.union(ids@.to_set()),
    {
        let mut index: usize = 0;
        proof {
            assert(ids@.take(0).to_set() =~= Set::<u64>::empty());
            assert(self@.union(ids@.take(0).to_set()) =~= self@);
        }
        while index < ids.len()
            invariant
                index <= ids.len(),
                self@ == old(self)@.union(ids@.take(index as int).to_set()),
            decreases ids.len() - index,
        {
            let id: u64 = ids[index];
            self.insert(id);
            proof {
                assert(ids@.take(index + 1) =~= ids@.take(index as int).push(id));
                ids@.take(index as int).lemma_push_to_set_commute(id);
                assert(self@ =~= old(self)@.union(ids@.take(index + 1).to_set()));
            }
            index = index + 1;
        }
        proof {
            assert(ids@.take(ids@.len() as int) =~= ids@);
        }
    }
}

/// A set of texts.
#[derive(Debug)]
pub struct TextSet {
    pub items: Vec<String>,
}

impl View for TextSet {
    type V = Set<Seq<char>>;

    open spec fn view(&self) -> Set<Seq<char>> {
        text_views(self.items@).to_set()
    }
}

impl TextSet {
    /// The empty set.
    pub fn new() -> (set: Self)
        ensures
            set@ == Set::<Seq<char>>::empty(),
    {
        let items: Vec<String> = Vec::new();
        proof {
            assert(text_views(items@).to_set() =~= Set::<Seq<char>>::empty());
        }
        TextSet { items }
    }

    /// Tells whether `text` is in the set.
    pub fn contains(&self, text: &String) -> (found: bool)
        ensures
            found == self@.contains(text@),
    {
        contains_text(&self.items, text)
    }

    /// Puts `text` into the set.
    pub fn insert(&mut self, text: String)
        ensures
            final(self)@ == old(self)@.insert(text@),
    {
        if self.contains(&text) {
            proof {
                assert(self@.insert(text@) =~= self@);
            }
            return;
        }
        self.items.push(text);
        proof {
            assert(text_views(self.items@) =~= text_views(old(self).items@).push(text@));
            text_views(old(self).items@).lemma_push_to_set_commute(text@);
        }
    }

    /// Takes `text` out of the set.
    pub fn remove(&mut self, text: &String)
        ensures
            final(self)@ == old(self)@.remove(text@),
    {
        let mut kept = TextSet::new();
        let mut index: usize = 0;
        while index < self.items.len()
            invariant
                index <= self.items.len(),
                *self == *old(self),
                kept@ == text_views(self.items@).take(index as int).to_set().remove(text@),
            decreases self.items.len() - index,
        {
            let ghost before = text_views(self.items@).take(index as int);
            let ghost item = text_views(self.items@)[index as int];
            proof {
                assert(text_views(self.items@).take(index + 1) =~= before.push(item));
                before.lemma_push_to_set_commute(item);
            }
            if self.items[index] != *text {
                kept.insert(self.items[index].clone());
            }
            proof {
                assert(kept@ =~= text_views(self.items@).take(index + 1).to_set().remove(text@));
            }
            index = index + 1;
        }
        proof {
            assert(text_views(self.items@).take(self.items@.len() as int) =~= text_views(
                self.items@,
            ));
        }
        self.items = kept.items;
    }

    /// Takes out everything that is not in `kept`.
    pub fn retain(&mut self, kept: &TextSet)
        ensures
            final(self)@ == old(self)@.intersect(kept@),
    {
        let mut rest = TextSet::new();
        let mut index: usize = 0;
        proof {
            assert(text_views(self.items@).take(0).to_set() =~= Set::<Seq<char>>::empty());
            assert(rest@ =~= text_views(self.items@).take(0).to_set().intersect(kept@));
        }
        while index < self.items.len()
            invariant
                index <= self.items.len(),
                *self == *old(self),
                rest@ == text_views(self.items@).take(index as int).to_set().intersect(kept@),
            decreases self.items.len() - index,
        {
            let ghost before = text_views(self.items@).take(index as int);
            let ghost item = text_views(self.items@)[index as int];
            proof {
                assert(text_views(self.items@).take(index + 1) =~= before.push(item));
                before.lemma_push_to_set_commute(item);
            }
            if kept.contains(&self.items[index]) {
                rest.insert(self.items[index].clone());
            }
            proof {
                assert(rest@ =~= text_views(self.items@).take(index + 1).to_set().intersect(kept@));
            }
            index = index + 1;
        }
        proof {
            assert(text_views(self.items@).take(self.items@.len() as int) =~= text_views(
                self.items@,
            ));
        }
        self.items = rest.items;
    }

    /// Lists what is in the set but not in `others`.
    pub fn without(&self, others: &Vec<String>) -> (rest: TextSet)
        ensures
            rest@ == self@.difference(text_views(others@).to_set()),
    {
        let mut rest = TextSet::new();
        let mut index: usize = 0;
        let ghost other = text_views(others@).to_set();
        proof {
            assert(text_views(self.items@).take(0).to_set() =~= Set::<Seq<char>>::empty());
            assert(rest@ =~= text_views(self.items@).take(0).to_set().difference(other));
        }
        while index < self.items.len()
            invariant
                index <= self.items.len(),
                other == text_views(others@).to_set(),
                rest@ == text_views(self.items@).take(index as int).to_set().difference(other),
            decreases self.items.len() - index,
        {
            let ghost before = text_views(self.items@).take(index as int);
            let ghost item = text_views(self.items@)[index as int];
            proof {
                assert(text_views(self.items@).take(index + 1) =~= before.push(item));
                before.lemma_push_to_set_commute(item);
            }
            if !contains_text(others, &self.items[index]) {
                rest.insert(self.items[index].clone());
            }
            proof {
                assert(rest@ =~= text_views(self.items@).take(index + 1).to_set().difference(
                    other,
                ));
            }
            index = index + 1;
        }
        proof {
            assert(text_views(self.items@).take(self.items@.len() as int) =~= text_views(
                self.items@,
            ));
        }
        rest
    }

    /// Copies the set.
    pub fn copy(&self) -> (copy: Self)
        ensures
            copy@ == self@,
            copy.items@.len() <= self.items@.len(),
    {
        let mut items: Vec<String> = Vec::new();
        let mut index: usize = 0;
        while index < self.items.len()
            invariant
                index <= self.items.len(),
                items@ == self.items@.take(index as int),
            decreases self.items.len() - index,
        {
            items.push(self.items[index].clone());
            index = index + 1;
        }
        proof {
            assert(items@ =~= self.items@);
        }
        TextSet { items }
    }

    /// Tells whether nothing is in the set.
    pub fn is_empty(&self) -> (empty: bool)
        ensures
            empty == (self@ == Set::<Seq<char>>::empty()),
    {
        let empty = self.items.len() == 0;
        proof {
            if empty {
                assert(self@ =~= Set::<Seq<char>>::empty());
            } else {
                assert(self@.contains(text_views(self.items@)[0]));
            }
        }
        empty
    }

    /// Puts every one of `texts` into the set.
    pub fn extend(&mut self, texts: &Vec<String>)
        ensures
            final(self)@ == old(self)@.union(text_views(texts@).to_set()),
    {
        let mut index: usize = 0;
        proof {
            assert(text_views(texts@).take(0).to_set() =~= Set::<Seq<char>>::empty());
            assert(self@.union(text_views(texts@).take(0).to_set()) =~= self@);
        }
        while index < texts.len()
            invariant
                index <= texts.len(),
                self@ == old(self)@.union(text_views(texts@).take(index as int).to_set()),
            decreases texts.len() - index,
        {
            let ghost before = text_views(texts@).take(index as int);
            let ghost item = text_views(texts@)[index as int];
            proof {
                assert(text_views(texts@).take(index + 1) =~= before.push(item));
                before.lemma_push_to_set_commute(item);
            }
            self.insert(texts[index].clone());
            proof {
                assert(self@ =~= old(self)@.union(
                    text_views(texts@).take(index + 1).to_set(),
                ));
            }
            index = index + 1;
        }
        proof {
            assert(text_views(texts@).take(texts@.len() as int) =~= text_views(texts@));
        }
    }
}

} // verus!
